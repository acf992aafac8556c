//! The one persisted entity: a note. The store keys notes by their
//! caller-supplied identifier — the primary key makes a second insert of the
//! same identifier fail rather than overwrite — so the identifier and the
//! title are never empty. The timestamps are maintained by the server and
//! are not part of the value handed to the store.

use vstd::prelude::*;

verus! {

/// A note as handed to the store: a unique, immutable, caller-supplied
/// identifier, a mandatory title, and optional content.
pub struct Note {
    pub id: String,
    pub title: String,
    pub content: Option<String>,
}

impl Note {
    /// A note the store accepts: non-empty identifier, non-empty title.
    pub open spec fn wf(self) -> bool {
        self.id@.len() > 0 && self.title@.len() > 0
    }
}

/// The fixed demonstration note that bootstrap seeds into a table it
/// observed empty.
pub fn demo_note() -> (n: Note)
    ensures
        n.id@ == "demo-1"@,
        n.title@ == "Welcome to Zetteln"@,
        n.content matches Some(c) && c@ == "This is your first note in the zettelkasten system!"@,
        n.wf(),
{
    proof {
        reveal_strlit("demo-1");
        reveal_strlit("Welcome to Zetteln");
    }
    Note {
        id: String::from_str("demo-1"),
        title: String::from_str("Welcome to Zetteln"),
        content: Some(String::from_str("This is your first note in the zettelkasten system!")),
    }
}

} // verus!
