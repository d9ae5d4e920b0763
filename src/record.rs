use vstd::prelude::*;

verus! {

/// One search hit: where it points, what it says, and whether it can be crawled.
#[derive(Debug)]
pub struct QueryResult {
    pub url: String,
    pub description: String,
    pub url_supported_flag: bool,
}

impl Clone for QueryResult {
    fn clone(&self) -> (r: Self)
        ensures
            r == *self,
    {
        QueryResult {
            url: self.url.clone(),
            description: self.description.clone(),
            url_supported_flag: self.url_supported_flag,
        }
    }
}

impl QueryResult {
    /// A readable three-line account of the result.
    pub fn describe(&self) -> (r: String)
        ensures
            r@ == "Url: "@ + self.url@ + "\n Description: "@ + self.description@
                + "\n Crawl supported: "@ + (if self.url_supported_flag {
                "true"@
            } else {
                "false"@
            }),
    {
        let mut s = String::from_str("Url: ");
        s.append(self.url.as_str());
        s.append("\n Description: ");
        s.append(self.description.as_str());
        s.append("\n Crawl supported: ");
        if self.url_supported_flag {
            s.append("true");
        } else {
            s.append("false");
        }
        s
    }
}

/// What the search provider is asked: a normalized query and the debug side channel.
#[derive(Debug)]
pub struct QueryArgs {
    pub query: String,
    pub debug_mode: bool,
}

/// Copies a result list element for element.
pub fn clone_results(v: &Vec<QueryResult>) -> (r: Vec<QueryResult>)
    ensures
        r@ == v@,
{
    let r = v.clone();
    assert(r@ =~= v@);
    r
}

} // verus!
