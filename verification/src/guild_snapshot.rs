//! A plain-data snapshot of one guild's structures.
//!
//! Server administrators can rename or delete roles and channels at any time,
//! so the settings logic never holds live platform objects: it works on a
//! snapshot of identifiers, names and kinds taken at one instant.

use vstd::prelude::*;

verus! {

/// The kind of a guild channel, as far as this library distinguishes them.
#[derive(Clone, Copy, PartialEq, Eq, Structural, Debug)]
pub enum GuildChannelKind {
    Text,
    Category,
    Other,
}

/// One role of a guild: its identifier and its current name.
#[derive(Clone, Debug)]
pub struct GuildRole {
    pub id: u64,
    pub name: String,
}

/// One channel of a guild: its identifier, current name and kind.
#[derive(Clone, Debug)]
pub struct GuildChannel {
    pub id: u64,
    pub name: String,
    pub kind: GuildChannelKind,
}

/// The structures of one guild at one instant: its roles and its channels
/// (categories are channels of kind `Category`).
#[derive(Clone, Debug)]
pub struct GuildSnapshot {
    pub roles: Vec<GuildRole>,
    pub channels: Vec<GuildChannel>,
}

impl GuildSnapshot {
    /// Whether the snapshot holds a role with this identifier.
    pub open spec fn has_role(self, id: u64) -> bool {
        exists|i: int| 0 <= i < self.roles@.len() && self.roles@[i].id == id
    }

    /// Whether the snapshot holds a channel (of any kind) with this identifier.
    pub open spec fn has_channel(self, id: u64) -> bool {
        exists|i: int| 0 <= i < self.channels@.len() && self.channels@[i].id == id
    }

    /// Decides `has_role`.
    pub fn contains_role(&self, id: u64) -> (r: bool)
        ensures
            r == self.has_role(id),
    {
        let n = self.roles.len();
        let mut i: usize = 0;
        while i < n
            invariant
                n == self.roles@.len(),
                i <= n,
                forall|j: int| 0 <= j < i ==> self.roles@[j].id != id,
            decreases n - i,
        {
            if self.roles[i].id == id {
                return true;
            }
            i = i + 1;
        }
        false
    }

    /// Decides `has_channel`.
    pub fn contains_channel(&self, id: u64) -> (r: bool)
        ensures
            r == self.has_channel(id),
    {
        let n = self.channels.len();
        let mut i: usize = 0;
        while i < n
            invariant
                n == self.channels@.len(),
                i <= n,
                forall|j: int| 0 <= j < i ==> self.channels@[j].id != id,
            decreases n - i,
        {
            if self.channels[i].id == id {
                return true;
            }
            i = i + 1;
        }
        false
    }
}

} // verus!
