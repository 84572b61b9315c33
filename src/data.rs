//! The bodies that travel over the wire, as plain values.
use crate::error::Error;
use vstd::prelude::*;

verus! {

/// Body of the sign-in call.
#[derive(Debug, Clone, PartialEq, Eq)]
pub struct LoginRequest {
    pub api_key: String,
    pub api_secret: String,
}

/// Answer of the sign-in call.
#[derive(Debug, Clone, PartialEq, Eq)]
pub struct LoginResponse {
    pub token: String,
}

/// Body of the call that creates an activity.
#[derive(Debug, Clone, PartialEq, Eq)]
pub struct ActivityRequest {
    pub name: String,
    pub color: String,
    pub integration: String,
    pub space_id: String,
}

/// Answer of the call that creates an activity.
#[derive(Debug, Clone, PartialEq, Eq)]
pub struct ActivityResponse {
    pub id: String,
    pub name: String,
    pub color: String,
    pub integration: String,
    pub space_id: String,
}

/// Body of the call that creates a tag.
#[derive(Debug, Clone, PartialEq, Eq)]
pub struct TagRequest {
    pub label: String,
    pub key: Option<String>,
    pub scope: String,
    pub space_id: String,
}

/// Answer of the call that creates a tag.
#[derive(Debug, Clone, PartialEq, Eq)]
pub struct TagResponse {
    pub id: i64,
    pub key: String,
    pub label: String,
    pub scope: String,
    pub space_id: String,
}

/// Answer of the call that lists the spaces of an account.
#[derive(Debug, Clone, PartialEq, Eq)]
pub struct SpaceListResponse {
    pub data: Vec<SpaceResponse>,
}

/// One space of an account.
#[derive(Debug, Clone, PartialEq, Eq)]
pub struct SpaceResponse {
    pub id: String,
    pub name: String,
    pub default: bool,
    pub members: Vec<SpaceMemberResponse>,
    pub retired_members: Vec<SpaceRetiredMemberResponse>,
}

/// A member of a space.
#[derive(Debug, Clone, PartialEq, Eq)]
pub struct SpaceMemberResponse {
    pub id: String,
    pub name: String,
    pub email: String,
    pub role: String,
}

/// A former member of a space.
#[derive(Debug, Clone, PartialEq, Eq)]
pub struct SpaceRetiredMemberResponse {
    pub id: String,
    pub name: String,
}

/// Entry `i` is marked default and no other entry is.
pub open spec fn is_sole_default(spaces: Seq<SpaceResponse>, i: int) -> bool {
    &&& 0 <= i < spaces.len()
    &&& spaces[i].default
    &&& forall|j: int| 0 <= j < spaces.len() && j != i ==> !(#[trigger] spaces[j]).default
}

/// The id of the one space marked default, where exactly one is.
pub open spec fn sole_default_id(spaces: Seq<SpaceResponse>) -> Option<String> {
    if exists|i: int| is_sole_default(spaces, i) {
        Some(spaces[choose|i: int| is_sole_default(spaces, i)].id)
    } else {
        None
    }
}

/// The id of a sole default space is that of the entry marked default, and no
/// entry marked default means there is none.
pub proof fn lemma_sole_default_id(spaces: Seq<SpaceResponse>, i: int)
    ensures
        is_sole_default(spaces, i) ==> sole_default_id(spaces) == Some(spaces[i].id),
        (forall|j: int| 0 <= j < spaces.len() ==> !(#[trigger] spaces[j]).default) ==> sole_default_id(
            spaces,
        ) is None,
{
    if is_sole_default(spaces, i) {
        let j = choose|j: int| is_sole_default(spaces, j);
        assert(is_sole_default(spaces, j));
        if j != i {
            assert(!spaces[j].default);
        }
    }
}

impl SpaceListResponse {
    /// The first space that is marked default, if any.
    pub fn default_space(&self) -> (r: Option<&SpaceResponse>)
        ensures
            match r {
                Some(sp) => exists|i: int|
                    0 <= i < self.data.len() && *sp == self.data@[i] && sp.default && forall|j: int|
                        0 <= j < i ==> !(#[trigger] self.data@[j]).default,
                None => forall|i: int| 0 <= i < self.data.len() ==> !(#[trigger] self.data@[i]).default,
            },
    {
        let mut i: usize = 0;
        while i < self.data.len()
            invariant
                i <= self.data.len(),
                forall|j: int| 0 <= j < i ==> !(#[trigger] self.data@[j]).default,
            decreases self.data.len() - i,
        {
            if self.data[i].default {
                return Some(&self.data[i]);
            }
            i = i + 1;
        }
        None
    }

    /// The id of the one space marked default. Where none is, or more than one,
    /// the choice is not guessed: the answer is `NoDefaultSpace`.
    pub fn default_space_id(&self) -> (r: Result<String, Error>)
        ensures
            r == match sole_default_id(self.data@) {
                Some(id) => Ok::<String, Error>(id),
                None => Err::<String, Error>(Error::NoDefaultSpace),
            },
    {
        let mut found: Option<usize> = None;
        let mut i: usize = 0;
        while i < self.data.len()
            invariant
                i <= self.data.len(),
                match found {
                    None => forall|j: int| 0 <= j < i ==> !(#[trigger] self.data@[j]).default,
                    Some(k) => k < i && self.data@[k as int].default && forall|j: int|
                        0 <= j < i && j != k ==> !(#[trigger] self.data@[j]).default,
                },
            decreases self.data.len() - i,
        {
            if self.data[i].default {
                match found {
                    Some(k) => {
                        assert forall|m: int| !is_sole_default(self.data@, m) by {
                            if m != k as int {
                                assert(self.data@[k as int].default);
                            } else {
                                assert(self.data@[i as int].default);
                            }
                        }
                        return Err(Error::NoDefaultSpace);
                    },
                    None => {
                        found = Some(i);
                    },
                }
            }
            i = i + 1;
        }
        match found {
            Some(k) => {
                assert(is_sole_default(self.data@, k as int));
                proof {
                    lemma_sole_default_id(self.data@, k as int);
                }
                Ok(self.data[k].id.clone())
            },
            None => {
                assert forall|m: int| !is_sole_default(self.data@, m) by {
                    if 0 <= m < self.data.len() {
                        assert(!self.data@[m].default);
                    }
                }
                Err(Error::NoDefaultSpace)
            },
        }
    }
}

} // verus!
