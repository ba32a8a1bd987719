use vstd::prelude::*;

verus! {

/// Identifier of a group, level or music track on the server.
pub type Id = u64;

/// Information about a group of levels.
#[derive(Debug, Clone)]
pub struct GroupMeta {
    pub name: String,
    /// Music ID.
    pub music: Id,
}

/// Information about a level.
#[derive(Debug, Clone)]
pub struct LevelMeta {
    /// 0 id for new levels not yet uploaded to the server.
    pub id: Id,
    pub name: String,
    pub author: String,
}

/// The credit line `"{prefix} by {authors}"`, with a placeholder when no authors are given.
pub open spec fn author_line(prefix: Seq<char>, authors: Seq<char>) -> Seq<char> {
    prefix + " by "@ + (if authors.len() == 0 {
        "<authors unspecified>"@
    } else {
        authors
    })
}

/// The credit line `"{prefix} by {authors}"`, with a placeholder when no authors are given.
pub fn author_text(prefix: &str, authors: &str) -> (res: String)
    ensures
        res@ == author_line(prefix@, authors@),
{
    let mut res = String::from_str(prefix);
    res.append(" by ");
    if authors.is_empty() {
        res.append("<authors unspecified>");
    } else {
        res.append(authors);
    }
    res
}

} // verus!
