//! Capability manifest — declares what a reflex is allowed to do.
//!
//! A [`CapabilityManifest`] is attached to each reflex and enumerates the
//! permissions it requires.  The veto engine checks the manifest before
//! allowing execution.

use vstd::prelude::*;
use vstd::std_specs::cmp::PartialEqSpecImpl;
use uuid::Uuid;
use crate::text::{chars_of, contains_char, find_from, has_prefix, occurs_at, starts_with};

verus! {

/// Splits `p` at every occurrence of `sep`, as `str::split` does: the result
/// always holds one more segment than `p` holds separators.
pub open spec fn split_on(p: Seq<char>, sep: char) -> Seq<Seq<char>>
    decreases p.len(),
{
    if p.len() == 0 {
        seq![Seq::<char>::empty()]
    } else {
        let rest = split_on(p.drop_last(), sep);
        if p.last() == sep {
            rest.push(Seq::<char>::empty())
        } else {
            rest.update(rest.len() - 1, rest.last().push(p.last()))
        }
    }
}

/// The segments `parts` occur in `s` in order, without overlapping.
pub open spec fn occur_in_order(parts: Seq<Seq<char>>, s: Seq<char>) -> bool
    decreases parts.len(),
{
    if parts.len() == 0 {
        true
    } else {
        exists|k: int|
            #[trigger] occurs_at(s, parts[0], k) && occur_in_order(
                parts.drop_first(),
                s.skip(k + parts[0].len()),
            )
    }
}

/// The glob language of permission paths: `*` and `/*` cover every path;
/// a pattern without `*` covers the paths it is a prefix of; otherwise the
/// segments between the stars must occur in the path in order, the first
/// one at its start.
pub open spec fn glob_covers(pattern: Seq<char>, path: Seq<char>) -> bool {
    if pattern == seq!['/', '*'] || pattern == seq!['*'] {
        true
    } else if !pattern.contains('*') {
        starts_with(path, pattern)
    } else {
        let parts = split_on(pattern, '*');
        starts_with(path, parts[0]) && occur_in_order(
            parts.drop_first(),
            path.skip(parts[0].len() as int),
        )
    }
}

proof fn lemma_split_on_nonempty(p: Seq<char>, sep: char)
    ensures
        split_on(p, sep).len() >= 1,
    decreases p.len(),
{
    if p.len() > 0 {
        lemma_split_on_nonempty(p.drop_last(), sep);
    }
}

/// Segments found in a suffix of `u` are found in `u`.
proof fn lemma_in_order_suffix(parts: Seq<Seq<char>>, u: Seq<char>, d: int)
    requires
        0 <= d <= u.len(),
        occur_in_order(parts, u.skip(d)),
    ensures
        occur_in_order(parts, u),
{
    if parts.len() > 0 {
        let t = u.skip(d);
        let k = choose|k: int|
            #[trigger] occurs_at(t, parts[0], k) && occur_in_order(
                parts.drop_first(),
                t.skip(k + parts[0].len()),
            );
        assert(u.subrange(d + k, d + k + parts[0].len()) =~= t.subrange(k, k + parts[0].len()));
        assert(u.skip(d + k + parts[0].len()) =~= t.skip(k + parts[0].len()));
        assert(occurs_at(u, parts[0], d + k));
    }
}

/// Taking the leftmost occurrence of the first segment loses no match.
proof fn lemma_in_order_leftmost(parts: Seq<Seq<char>>, s: Seq<char>, k0: int)
    requires
        parts.len() > 0,
        occurs_at(s, parts[0], k0),
        forall|j: int| 0 <= j < k0 ==> !occurs_at(s, parts[0], j),
    ensures
        occur_in_order(parts, s) == occur_in_order(
            parts.drop_first(),
            s.skip(k0 + parts[0].len()),
        ),
{
    let len = parts[0].len() as int;
    if occur_in_order(parts, s) {
        let k = choose|k: int|
            #[trigger] occurs_at(s, parts[0], k) && occur_in_order(
                parts.drop_first(),
                s.skip(k + len),
            );
        assert(k >= k0);
        let base = s.skip(k0 + len);
        assert(base.skip(k - k0) =~= s.skip(k + len));
        lemma_in_order_suffix(parts.drop_first(), base, k - k0);
    }
}

/// No occurrence of the first segment means no match.
proof fn lemma_in_order_absent(parts: Seq<Seq<char>>, s: Seq<char>)
    requires
        parts.len() > 0,
        forall|j: int| 0 <= j ==> !occurs_at(s, parts[0], j),
    ensures
        !occur_in_order(parts, s),
{
}

/// An empty first segment can be dropped.
proof fn lemma_in_order_empty_head(parts: Seq<Seq<char>>, s: Seq<char>)
    requires
        parts.len() > 0,
        parts[0].len() == 0,
    ensures
        occur_in_order(parts, s) == occur_in_order(parts.drop_first(), s),
{
    assert(s.subrange(0, 0) =~= parts[0]);
    assert(s.skip(0) =~= s);
    assert(occurs_at(s, parts[0], 0));
    if occur_in_order(parts, s) {
        let k = choose|k: int|
            #[trigger] occurs_at(s, parts[0], k) && occur_in_order(
                parts.drop_first(),
                s.skip(k + parts[0].len()),
            );
        lemma_in_order_suffix(parts.drop_first(), s, k);
    }
}

/// Occurrence in a suffix, seen from the whole sequence.
proof fn lemma_occurs_skip(s: Seq<char>, needle: Seq<char>, c: int, j: int)
    requires
        0 <= c <= s.len(),
        0 <= j,
    ensures
        occurs_at(s.skip(c), needle, j) == occurs_at(s, needle, c + j),
{
    if j + needle.len() <= s.len() - c {
        assert(s.skip(c).subrange(j, j + needle.len()) =~= s.subrange(c + j, c + j + needle.len()));
    }
}

/// The contents of a list of character vectors.
pub open spec fn segment_views(parts: Seq<Vec<char>>) -> Seq<Seq<char>> {
    parts.map_values(|v: Vec<char>| v@)
}

/// Splits a pattern at every `*`.
fn split_stars(p: &Vec<char>) -> (parts: Vec<Vec<char>>)
    ensures
        segment_views(parts@) == split_on(p@, '*'),
{
    let mut parts: Vec<Vec<char>> = Vec::new();
    let mut cur: Vec<char> = Vec::new();
    let mut i: usize = 0;
    assert(p@.take(0) =~= Seq::<char>::empty());
    assert(segment_views(parts@).push(cur@) =~= split_on(p@.take(0), '*'));
    while i < p.len()
        invariant
            i <= p@.len(),
            segment_views(parts@).push(cur@) == split_on(p@.take(i as int), '*'),
        decreases p.len() - i,
    {
        let c = p[i];
        let ghost before = p@.take(i as int);
        let ghost after = p@.take(i + 1);
        assert(after.drop_last() =~= before);
        assert(after.last() == c);
        let ghost old_parts = segment_views(parts@);
        let ghost old_cur = cur@;
        if c == '*' {
            let done = cur;
            parts.push(done);
            cur = Vec::new();
            assert(segment_views(parts@) =~= old_parts.push(old_cur));
            assert(segment_views(parts@).push(cur@) =~= split_on(after, '*'));
        } else {
            cur.push(c);
            assert(segment_views(parts@) =~= old_parts);
            assert(segment_views(parts@).push(cur@) =~= old_parts.push(old_cur).update(
                old_parts.len() as int,
                old_cur.push(c),
            ));
        }
        i += 1;
    }
    assert(p@.take(p@.len() as int) =~= p@);
    let ghost before_last = segment_views(parts@);
    parts.push(cur);
    assert(segment_views(parts@) =~= before_last.push(cur@));
    parts
}

/// Simple glob-style path matching.
///
/// Supports `*` as a wildcard that matches any sequence of characters.
pub fn path_matches_pattern(pattern: &str, path: &str) -> (b: bool)
    ensures
        b == glob_covers(pattern@, path@),
{
    let pat = chars_of(pattern);
    let pth = chars_of(path);
    if pat.len() == 2 && pat[0] == '/' && pat[1] == '*' {
        assert(pat@ =~= seq!['/', '*']);
        return true;
    }
    if pat.len() == 1 && pat[0] == '*' {
        assert(pat@ =~= seq!['*']);
        return true;
    }
    proof {
        if pat@ == seq!['/', '*'] {
            assert(pat@.len() == 2 && pat@[0] == '/' && pat@[1] == '*');
        }
        if pat@ == seq!['*'] {
            assert(pat@.len() == 1 && pat@[0] == '*');
        }
    }
    if !contains_char(&pat, '*') {
        return has_prefix(&pth, &pat);
    }
    // Very simple glob: split on '*' and check sequential containment.
    let parts = split_stars(&pat);
    proof {
        lemma_split_on_nonempty(pat@, '*');
    }
    let ghost all = segment_views(parts@);
    let mut cursor: usize = 0;
    let mut i: usize = 0;
    // The first segment is anchored at the start of the path.
    let first_ok = has_prefix(&pth, &parts[0]);
    if !first_ok {
        return false;
    }
    cursor = parts[0].len();
    i = 1;
    let path_len = pth.len();
    assert(all.skip(1) =~= all.drop_first());
    while i < parts.len()
        invariant
            all == segment_views(parts@),
            pat@ == pattern@,
            pth@ == path@,
            path_len == pth@.len(),
            all.len() >= 1,
            1 <= i <= all.len(),
            cursor <= pth@.len(),
            glob_covers(pat@, pth@) == occur_in_order(all.skip(i as int), pth@.skip(cursor as int)),
        decreases parts.len() - i,
    {
        let ghost rest = all.skip(i as int);
        assert(rest.drop_first() =~= all.skip(i + 1));
        assert(rest[0] == parts[i as int]@);
        let part = &parts[i];
        if part.len() == 0 {
            proof {
                lemma_in_order_empty_head(rest, pth@.skip(cursor as int));
            }
        } else {
            match find_from(&pth, part, cursor) {
                Some(pos) => {
                    proof {
                        let s = pth@.skip(cursor as int);
                        let k0 = pos - cursor;
                        lemma_occurs_skip(pth@, part@, cursor as int, k0);
                        assert forall|j: int| 0 <= j < k0 implies !occurs_at(s, rest[0], j) by {
                            lemma_occurs_skip(pth@, part@, cursor as int, j);
                        }
                        lemma_in_order_leftmost(rest, s, k0);
                        assert(s.skip(k0 + rest[0].len()) =~= pth@.skip(pos + part@.len()));
                    }
                    assert(pos + part@.len() <= pth@.len());
                    cursor = pos + part.len();
                },
                None => {
                    proof {
                        let s = pth@.skip(cursor as int);
                        assert forall|j: int| 0 <= j implies !occurs_at(s, rest[0], j) by {
                            lemma_occurs_skip(pth@, part@, cursor as int, j);
                        }
                        lemma_in_order_absent(rest, s);
                        assert(!occur_in_order(rest, s));
                        assert(!glob_covers(pat@, pth@));
                    }
                    return false;
                },
            }
        }
        i += 1;
    }
    assert(all.skip(i as int).len() == 0);
    true
}


/// The reflex identifiers of the `uuid` crate, carried through unchanged.
#[verifier::external_type_specification]
#[verifier::external_body]
pub struct ExUuid(Uuid);

/// `Uuid` derives `Clone` together with `Copy`, so a clone is the same value.
pub assume_specification[ <Uuid as Clone>::clone ](u: &Uuid) -> (r: Uuid)
    ensures
        r == *u,
;

/// A single permission granted to a reflex.
#[derive(Debug, Clone)]
pub enum Permission {
    /// Read access to a filesystem path (may include globs).
    FsRead {
        /// Path pattern this permission covers.
        path: String,
    },
    /// Write access to a filesystem path.
    FsWrite {
        /// Path pattern this permission covers.
        path: String,
    },
    /// Outbound network connection to a specific host:port.
    NetConnect {
        /// Hostname or IP address.
        host: String,
        /// TCP/UDP port.
        port: u16,
    },
    /// No network access at all.
    NetNone,
    /// Permission to execute a specific binary.
    Execute {
        /// Name or path of the binary.
        binary: String,
    },
}

impl Permission {
    /// Whether this permission grants write access covering `path`.
    pub open spec fn spec_covers_fs_write(&self, path: Seq<char>) -> bool {
        match self {
            Permission::FsWrite { path: pattern } => glob_covers(pattern@, path),
            _ => false,
        }
    }

    /// Whether this permission grants read access covering `path`
    /// (write access implies read access).
    pub open spec fn spec_covers_fs_read(&self, path: Seq<char>) -> bool {
        match self {
            Permission::FsRead { path: pattern } => glob_covers(pattern@, path),
            Permission::FsWrite { path: pattern } => glob_covers(pattern@, path),
            _ => false,
        }
    }

    /// Whether this permission allows executing `binary`.
    pub open spec fn spec_covers_execute(&self, binary: Seq<char>) -> bool {
        match self {
            Permission::Execute { binary: allowed } => allowed@ == binary,
            _ => false,
        }
    }

    /// Returns `true` if this permission grants filesystem write access
    /// that covers `path`.
    pub fn covers_fs_write(&self, path: &str) -> (b: bool)
        ensures
            b == self.spec_covers_fs_write(path@),
    {
        match self {
            Permission::FsWrite { path: pattern } => path_matches_pattern(pattern.as_str(), path),
            _ => false,
        }
    }

    /// Returns `true` if this permission grants filesystem read access
    /// that covers `path`.
    pub fn covers_fs_read(&self, path: &str) -> (b: bool)
        ensures
            b == self.spec_covers_fs_read(path@),
    {
        match self {
            Permission::FsRead { path: pattern } => path_matches_pattern(pattern.as_str(), path),
            // Write implies read.
            Permission::FsWrite { path: pattern } => path_matches_pattern(pattern.as_str(), path),
            _ => false,
        }
    }

    /// Returns `true` if this permission allows executing `binary`.
    pub fn covers_execute(&self, binary: &str) -> (b: bool)
        ensures
            b == self.spec_covers_execute(binary@),
    {
        match self {
            Permission::Execute { binary: allowed } => {
                let a = chars_of(allowed.as_str());
                let w = chars_of(binary);
                let same = a.len() == w.len() && has_prefix(&w, &a);
                proof {
                    if a@.len() == w@.len() {
                        assert(w@.take(a@.len() as int) =~= w@);
                    }
                }
                same
            },
            _ => false,
        }
    }

    /// Returns `true` if this permission allows network connections.
    pub fn allows_network(&self) -> (b: bool)
        ensures
            b == (self is NetConnect),
    {
        match self {
            Permission::NetConnect { .. } => true,
            _ => false,
        }
    }
}

/// Two permissions are equal when they are the same variant with equal fields.
pub open spec fn permission_eq(a: &Permission, b: &Permission) -> bool {
    match (a, b) {
        (Permission::FsRead { path: x }, Permission::FsRead { path: y }) => x@ == y@,
        (Permission::FsWrite { path: x }, Permission::FsWrite { path: y }) => x@ == y@,
        (
            Permission::NetConnect { host: h1, port: p1 },
            Permission::NetConnect { host: h2, port: p2 },
        ) => h1@ == h2@ && p1 == p2,
        (Permission::NetNone, Permission::NetNone) => true,
        (Permission::Execute { binary: x }, Permission::Execute { binary: y }) => x@ == y@,
        _ => false,
    }
}

impl PartialEq for Permission {
    fn eq(&self, other: &Permission) -> (r: bool) {
        match (self, other) {
            (Permission::FsRead { path: x }, Permission::FsRead { path: y }) => x.eq(y),
            (Permission::FsWrite { path: x }, Permission::FsWrite { path: y }) => x.eq(y),
            (
                Permission::NetConnect { host: h1, port: p1 },
                Permission::NetConnect { host: h2, port: p2 },
            ) => h1.eq(h2) && *p1 == *p2,
            (Permission::NetNone, Permission::NetNone) => true,
            (Permission::Execute { binary: x }, Permission::Execute { binary: y }) => x.eq(y),
            _ => false,
        }
    }
}

impl PartialEqSpecImpl for Permission {
    open spec fn obeys_eq_spec() -> bool {
        true
    }

    open spec fn eq_spec(&self, other: &Permission) -> bool {
        permission_eq(self, other)
    }
}

/// A manifest declaring the permissions and required capabilities for a reflex.
#[derive(Debug)]
pub struct CapabilityManifest {
    /// The reflex this manifest is attached to.
    pub reflex_id: Uuid,
    /// Permissions granted to this reflex.
    pub permissions: Vec<Permission>,
    /// Named capabilities required by this reflex (e.g. "cuda", "gpu").
    pub required_capabilities: Vec<String>,
}

impl CapabilityManifest {
    /// Create an empty manifest for the given reflex.
    pub fn empty(reflex_id: Uuid) -> (m: Self)
        ensures
            m.reflex_id == reflex_id,
            m.permissions@.len() == 0,
            m.required_capabilities@.len() == 0,
    {
        Self { reflex_id, permissions: Vec::new(), required_capabilities: Vec::new() }
    }

    /// Returns `true` if any permission in this manifest grants fs:write
    /// access to `path`.
    pub fn has_fs_write(&self, path: &str) -> (b: bool)
        ensures
            b == exists|i: int|
                0 <= i < self.permissions@.len()
                    && #[trigger] self.permissions@[i].spec_covers_fs_write(path@),
    {
        let mut i: usize = 0;
        while i < self.permissions.len()
            invariant
                i <= self.permissions@.len(),
                forall|j: int| 0 <= j < i ==> !#[trigger] self.permissions@[j].spec_covers_fs_write(path@),
            decreases self.permissions.len() - i,
        {
            if self.permissions[i].covers_fs_write(path) {
                return true;
            }
            i += 1;
        }
        false
    }

    /// Returns `true` if any permission in this manifest grants fs:read
    /// access to `path`.
    pub fn has_fs_read(&self, path: &str) -> (b: bool)
        ensures
            b == exists|i: int|
                0 <= i < self.permissions@.len()
                    && #[trigger] self.permissions@[i].spec_covers_fs_read(path@),
    {
        let mut i: usize = 0;
        while i < self.permissions.len()
            invariant
                i <= self.permissions@.len(),
                forall|j: int| 0 <= j < i ==> !#[trigger] self.permissions@[j].spec_covers_fs_read(path@),
            decreases self.permissions.len() - i,
        {
            if self.permissions[i].covers_fs_read(path) {
                return true;
            }
            i += 1;
        }
        false
    }

    /// Returns `true` if any permission allows executing `binary`.
    pub fn has_execute(&self, binary: &str) -> (b: bool)
        ensures
            b == exists|i: int|
                0 <= i < self.permissions@.len()
                    && #[trigger] self.permissions@[i].spec_covers_execute(binary@),
    {
        let mut i: usize = 0;
        while i < self.permissions.len()
            invariant
                i <= self.permissions@.len(),
                forall|j: int| 0 <= j < i ==> !#[trigger] self.permissions@[j].spec_covers_execute(binary@),
            decreases self.permissions.len() - i,
        {
            if self.permissions[i].covers_execute(binary) {
                return true;
            }
            i += 1;
        }
        false
    }

    /// Returns `true` if any permission allows network access.
    pub fn allows_network(&self) -> (b: bool)
        ensures
            b == exists|i: int|
                0 <= i < self.permissions@.len() && (#[trigger] self.permissions@[i] is NetConnect),
    {
        let mut i: usize = 0;
        while i < self.permissions.len()
            invariant
                i <= self.permissions@.len(),
                forall|j: int| 0 <= j < i ==> !(#[trigger] self.permissions@[j] is NetConnect),
            decreases self.permissions.len() - i,
        {
            if self.permissions[i].allows_network() {
                return true;
            }
            i += 1;
        }
        false
    }
}

/// Write access to a path implies read access to it: whatever a manifest
/// lets a reflex write, it lets the reflex read.
pub proof fn law_write_implies_read(p: Permission, path: Seq<char>)
    ensures
        p.spec_covers_fs_write(path) ==> p.spec_covers_fs_read(path),
{
}

/// The universal patterns `*` and `/*` cover every path.
pub proof fn law_universal_patterns(path: Seq<char>)
    ensures
        glob_covers(seq!['*'], path),
        glob_covers(seq!['/', '*'], path),
{
}

/// A pattern without wildcards covers exactly the paths it is a prefix of;
/// in particular it covers itself.
pub proof fn law_literal_pattern_covers_itself(pattern: Seq<char>)
    requires
        !pattern.contains('*'),
    ensures
        glob_covers(pattern, pattern),
{
    assert(pattern.take(pattern.len() as int) =~= pattern);
}

/// Segments that occur in order in `s` still do when `s` is extended.
proof fn lemma_in_order_extend(parts: Seq<Seq<char>>, s: Seq<char>, suffix: Seq<char>)
    requires
        occur_in_order(parts, s),
    ensures
        occur_in_order(parts, s + suffix),
    decreases parts.len(),
{
    if parts.len() > 0 {
        let len = parts[0].len() as int;
        let k = choose|k: int|
            #[trigger] occurs_at(s, parts[0], k) && occur_in_order(parts.drop_first(), s.skip(k + len));
        let t = s + suffix;
        assert(t.subrange(k, k + len) =~= s.subrange(k, k + len));
        assert(occurs_at(t, parts[0], k));
        lemma_in_order_extend(parts.drop_first(), s.skip(k + len), suffix);
        assert(t.skip(k + len) =~= s.skip(k + len) + suffix);
    }
}

/// A pattern that covers a path covers every extension of it: a grant on
/// `/tmp` or `/tmp/*` reaches everything below `/tmp`.
pub proof fn law_cover_extends(pattern: Seq<char>, path: Seq<char>, suffix: Seq<char>)
    requires
        glob_covers(pattern, path),
    ensures
        glob_covers(pattern, path + suffix),
{
    let ext = path + suffix;
    if pattern == seq!['/', '*'] || pattern == seq!['*'] {
    } else if !pattern.contains('*') {
        assert(ext.take(pattern.len() as int) =~= path.take(pattern.len() as int));
    } else {
        let parts = split_on(pattern, '*');
        let n = parts[0].len() as int;
        assert(ext.take(n) =~= path.take(n));
        assert(ext.skip(n) =~= path.skip(n) + suffix);
        lemma_in_order_extend(parts.drop_first(), path.skip(n), suffix);
    }
}

/// A manifest grants nothing by default: with no permissions listed it
/// allows no read, no write, no execution and no network access.
pub proof fn law_empty_manifest_grants_nothing(m: CapabilityManifest, path: Seq<char>, binary: Seq<char>)
    requires
        m.permissions@.len() == 0,
    ensures
        !exists|i: int| 0 <= i < m.permissions@.len() && #[trigger] m.permissions@[i].spec_covers_fs_write(path),
        !exists|i: int| 0 <= i < m.permissions@.len() && #[trigger] m.permissions@[i].spec_covers_fs_read(path),
        !exists|i: int| 0 <= i < m.permissions@.len() && #[trigger] m.permissions@[i].spec_covers_execute(binary),
        !exists|i: int| 0 <= i < m.permissions@.len() && (#[trigger] m.permissions@[i] is NetConnect),
{
}

/// A manifest that lets a reflex write a path lets it read that path.
pub proof fn law_manifest_write_implies_read(m: CapabilityManifest, path: Seq<char>)
    requires
        exists|i: int| 0 <= i < m.permissions@.len() && #[trigger] m.permissions@[i].spec_covers_fs_write(path),
    ensures
        exists|i: int| 0 <= i < m.permissions@.len() && #[trigger] m.permissions@[i].spec_covers_fs_read(path),
{
    let i = choose|i: int| 0 <= i < m.permissions@.len() && #[trigger] m.permissions@[i].spec_covers_fs_write(path);
    assert(m.permissions@[i].spec_covers_fs_read(path));
}

} // verus!
