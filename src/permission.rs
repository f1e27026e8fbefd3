//! Permission strings and the hierarchical permission set built from a
//! user's roles.
use vstd::prelude::*;

use crate::text::{begins_with, chars_of, has_prefix, is_single, is_single_char};

verus! {

/// One permission of the catalogue: `permission` is a colon-delimited path
/// such as `yq:user:query`, or the universal `*`.
pub struct PermissionItem {
    pub id: u32,
    pub name: String,
    pub permission: String,
}

/// Owning the path `p` grants `s` when `s` is `p` itself or lies below it:
/// `s` continues `p` with a `:` and further segments.
pub open spec fn grants(p: Seq<char>, s: Seq<char>) -> bool {
    s == p || (p.len() < s.len() && begins_with(s, p) && s[p.len() as int] == ':')
}

/// The universal permission `*`.
pub open spec fn is_wildcard(p: Seq<char>) -> bool {
    is_single(p, '*')
}

/// Whether the held paths `held` answer yes to the query `s`: the query is
/// `*` itself, or some held path is `*` or grants `s`.
pub open spec fn holds(held: Seq<Seq<char>>, s: Seq<char>) -> bool {
    is_wildcard(s) || exists|i: int|
        0 <= i < held.len() && (is_wildcard(#[trigger] held[i]) || grants(held[i], s))
}

/// Whether `*` itself is among the held paths.
pub open spec fn holds_wildcard(held: Seq<Seq<char>>) -> bool {
    exists|i: int| 0 <= i < held.len() && is_wildcard(#[trigger] held[i])
}

/// The superuser predicate: `*` is held, or each of the three top-level
/// namespaces `system`, `yq` and `hdwsh` is granted.
pub open spec fn admin(held: Seq<Seq<char>>) -> bool {
    holds_wildcard(held) || (holds(held, "system"@) && holds(held, "yq"@) && holds(held, "hdwsh"@))
}

/// Holding a path grants every query at or below it: if `p` is held and `s`
/// is `p` or continues it segment by segment, the set answers yes to `s`.
pub proof fn lemma_held_path_grants_descendants(perms: Permission, p: Seq<char>, s: Seq<char>)
    requires
        perms@.contains(p),
        grants(p, s),
    ensures
        holds(perms@, s),
{
    let i = choose|i: int| 0 <= i < perms@.len() && perms@[i] == p;
    assert(is_wildcard(perms@[i]) || grants(perms@[i], s));
}

/// The query `*` is answered yes by every permission set, even an empty one.
pub proof fn lemma_wildcard_query_always_granted(perms: Permission)
    ensures
        holds(perms@, seq!['*']),
{
}

/// Tests whether owning `p` grants `s`.
pub fn path_grants(p: &Vec<char>, s: &Vec<char>) -> (r: bool)
    ensures
        r == grants(p@, s@),
{
    if p.len() == s.len() {
        let r = has_prefix(s, p);
        assert(s@.subrange(0, p@.len() as int) =~= s@);
        r
    } else if p.len() < s.len() {
        has_prefix(s, p) && s[p.len()] == ':'
    } else {
        proof {
            assert(s@ != p@);
        }
        false
    }
}

/// The permissions that one user holds through all of their roles.
pub struct Permission {
    items: Vec<PermissionItem>,
}

impl View for Permission {
    type V = Seq<Seq<char>>;

    /// The held permission paths, in the order of the items.
    open spec fn view(&self) -> Seq<Seq<char>> {
        self.items().map_values(|it: PermissionItem| it.permission@)
    }
}

impl Permission {
    /// The items this set was built from.
    pub closed spec fn items(&self) -> Seq<PermissionItem> {
        self.items@
    }

    /// Builds the set from the items reachable through a user's roles.
    pub fn new(items: Vec<PermissionItem>) -> (r: Self)
        ensures
            r.items() == items@,
    {
        Permission { items }
    }

    /// Hands back the items the set was built from.
    pub fn into_inner(self) -> (r: Vec<PermissionItem>)
        ensures
            r@ == self.items(),
    {
        self.items
    }

    /// Whether the set holds `*` itself.
    pub fn holds_wildcard(&self) -> (r: bool)
        ensures
            r == holds_wildcard(self@),
    {
        let mut i: usize = 0;
        while i < self.items.len()
            invariant
                i <= self.items@.len(),
                forall|j: int| 0 <= j < i ==> !is_wildcard(#[trigger] self@[j]),
            decreases self.items@.len() - i,
        {
            let p = chars_of(self.items[i].permission.as_str());
            if is_single_char(&p, '*') {
                assert(is_wildcard(self@[i as int]));
                return true;
            }
            i = i + 1;
        }
        false
    }

    /// Whether the set answers yes to `permission`: `*` is always granted,
    /// a held `*` grants everything, and a held path grants itself and every
    /// path below it (`yq:user` grants `yq:user:edit`, not `yq:userx`).
    pub fn has(&self, permission: &str) -> (r: bool)
        ensures
            r == holds(self@, permission@),
    {
        let s = chars_of(permission);
        if is_single_char(&s, '*') {
            return true;
        }
        let mut i: usize = 0;
        while i < self.items.len()
            invariant
                s@ == permission@,
                !is_wildcard(s@),
                i <= self.items@.len(),
                forall|j: int|
                    0 <= j < i ==> !is_wildcard(#[trigger] self@[j]) && !grants(self@[j], s@),
            decreases self.items@.len() - i,
        {
            let p = chars_of(self.items[i].permission.as_str());
            if is_single_char(&p, '*') || path_grants(&p, &s) {
                assert(is_wildcard(self@[i as int]) || grants(self@[i as int], s@));
                return true;
            }
            i = i + 1;
        }
        false
    }

    /// The superuser escape hatch: `*` is held, or all of `system`, `yq`
    /// and `hdwsh` are granted.
    pub fn is_admin(&self) -> (r: bool)
        ensures
            r == admin(self@),
    {
        self.holds_wildcard() || (self.has("system") && self.has("yq") && self.has("hdwsh"))
    }
}

} // verus!
