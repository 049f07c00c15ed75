//! Counters kept over one pass of the input.

use vstd::prelude::*;

verus! {

/// How many posts the pass has seen, kept and skipped.
#[derive(Clone, Copy, PartialEq, Eq, Debug, Structural)]
pub struct Stats {
    /// Posts whose closing tag was reached.
    pub total_posts: u32,
    /// Posts that carry the chosen tag and no password.
    pub posts_emitted: u32,
    /// Posts that carry the chosen tag and a password.
    pub posts_skipped_because_of_password: u32,
}

/// The counters as natural numbers.
pub struct Counts {
    pub seen: nat,
    pub emitted: nat,
    pub skipped: nat,
}

impl View for Stats {
    type V = Counts;

    open spec fn view(&self) -> Counts {
        Counts {
            seen: self.total_posts as nat,
            emitted: self.posts_emitted as nat,
            skipped: self.posts_skipped_because_of_password as nat,
        }
    }
}

impl Counts {
    /// The counters before any post was seen.
    pub open spec fn zero() -> Counts {
        Counts { seen: 0, emitted: 0, skipped: 0 }
    }

    /// Kept and skipped posts are among the posts seen.
    pub open spec fn conserved(self) -> bool {
        self.emitted + self.skipped <= self.seen
    }

    /// The counters after one more post closed. `matched` says whether it
    /// carries the chosen tag, `protected` whether it has a password.
    pub open spec fn count(self, matched: bool, protected: bool) -> Counts {
        Counts {
            seen: self.seen + 1,
            emitted: if matched && !protected {
                self.emitted + 1
            } else {
                self.emitted
            },
            skipped: if matched && protected {
                self.skipped + 1
            } else {
                self.skipped
            },
        }
    }
}

impl Stats {
    pub fn new() -> (stats: Stats)
        ensures
            stats@ == Counts::zero(),
    {
        Stats { total_posts: 0, posts_emitted: 0, posts_skipped_because_of_password: 0 }
    }
}

} // verus!
