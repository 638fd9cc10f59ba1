use vstd::prelude::*;
use vstd::string::StringExecFns;

verus! {

/// The feed URL that serves one subreddit's JSON listing.
pub open spec fn feed_url(name: Seq<char>) -> Seq<char> {
    "https://www.reddit.com/r/"@ + name + ".json"@
}

/// Builds one feed URL per subreddit name, order kept, one-to-one.
pub fn get_subreddits_links(subreddits: &Vec<String>) -> (links: Vec<String>)
    ensures
        links@.len() == subreddits@.len(),
        forall|i: int|
            0 <= i < links@.len() ==> (#[trigger] links@[i])@ == feed_url(subreddits@[i]@),
{
    let mut links: Vec<String> = Vec::new();
    let mut k: usize = 0;
    while k < subreddits.len()
        invariant
            k <= subreddits@.len(),
            links@.len() == k,
            forall|i: int|
                0 <= i < k ==> (#[trigger] links@[i])@ == feed_url(subreddits@[i]@),
        decreases subreddits@.len() - k,
    {
        let mut url = String::from_str("https://www.reddit.com/r/");
        url.append(subreddits[k].as_str());
        url.append(".json");
        links.push(url);
        k += 1;
    }
    links
}

/// The fixed set of source subreddits the widget draws from.
pub fn default_subreddits() -> (names: Vec<String>)
    ensures
        names@.len() == 4,
        names@[0]@ == "memes"@,
        names@[1]@ == "shitposts"@,
        names@[2]@ == "dankmemes"@,
        names@[3]@ == "whenthe"@,
{
    let mut names: Vec<String> = Vec::new();
    names.push(String::from_str("memes"));
    names.push(String::from_str("shitposts"));
    names.push(String::from_str("dankmemes"));
    names.push(String::from_str("whenthe"));
    names
}

} // verus!
