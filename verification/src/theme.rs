use vstd::prelude::*;
use vstd::string::StringExecFns;

use crate::dom::Dom;
use crate::dom::DomView;
use crate::dom::ElementView;

verus! {

/// The class marker that encodes dark mode on the theme root element.
pub open spec fn dark_class() -> Seq<char> {
    "dark"@
}

/// The button label shown while dark mode is on: the prompt back to light.
pub open spec fn light_label() -> Seq<char> {
    "Light"@
}

/// The button label shown while light mode is on: the prompt into dark.
pub open spec fn dark_label() -> Seq<char> {
    "Dark"@
}

/// The theme transition: a two-state machine over the root element's class.
/// If the class reads exactly the dark marker, it is cleared and the button
/// prompts for light mode; any other class turns the marker on and the button
/// prompts for dark mode. Nothing else on the page changes.
pub open spec fn spec_toggle(d: DomView) -> DomView
    recommends
        d.mode is Some,
        d.switch is Some,
{
    if d.mode.unwrap().class_name == dark_class() {
        DomView {
            mode: Some(ElementView { class_name: Seq::empty(), ..d.mode.unwrap() }),
            switch: Some(ElementView { inner_html: light_label(), ..d.switch.unwrap() }),
            ..d
        }
    } else {
        DomView {
            mode: Some(ElementView { class_name: dark_class(), ..d.mode.unwrap() }),
            switch: Some(ElementView { inner_html: dark_label(), ..d.switch.unwrap() }),
            ..d
        }
    }
}

/// Flips the light/dark mode flag on the theme root element and updates the
/// toggle button's label, exactly as `spec_toggle` says. The state lives only
/// in the page model: nothing is persisted across sessions.
pub fn change_theme(dom: &mut Dom)
    requires
        old(dom).mode is Some,
        old(dom).switch is Some,
    ensures
        final(dom)@ == spec_toggle(old(dom)@),
{
    let dark = String::from_str("dark");
    let mut to_light = false;
    match &mut dom.mode {
        Some(el) => {
            if el.class_name == dark {
                el.class_name = String::new();
                to_light = true;
            } else {
                el.class_name = dark;
            }
        },
        None => {},
    }
    match &mut dom.switch {
        Some(el) => {
            if to_light {
                el.inner_html = String::from_str("Light");
            } else {
                el.inner_html = String::from_str("Dark");
            }
        },
        None => {},
    }
}

/// Law: from a consistent state — the dark marker set with the light prompt
/// owed, or the marker clear with the dark prompt owed — toggling twice
/// returns the root element's class and the button label to their original
/// values, and leaves the rest of the page as it was.
pub proof fn lemma_toggle_round_trip(d: DomView)
    requires
        d.mode is Some,
        d.switch is Some,
        (d.mode.unwrap().class_name == dark_class() && d.switch.unwrap().inner_html
            == dark_label()) || (d.mode.unwrap().class_name == Seq::<char>::empty()
            && d.switch.unwrap().inner_html == light_label()),
    ensures
        spec_toggle(spec_toggle(d)) == d,
{
    reveal_strlit("dark");
    assert(dark_class().len() == 4);
    let d1 = spec_toggle(d);
    let d2 = spec_toggle(d1);
    if d.mode.unwrap().class_name == dark_class() {
        assert(d1.mode.unwrap().class_name != dark_class());
    } else {
        assert(d1.mode.unwrap().class_name == dark_class());
    }
    assert(d2.mode.unwrap() =~~= d.mode.unwrap());
    assert(d2.switch.unwrap() =~~= d.switch.unwrap());
    assert(d2 =~~= d);
}

} // verus!
