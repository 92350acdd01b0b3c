//! Font registry: loads font data into the shaping collaborator's database
//! and hands out stable identifiers for looking a family name back up.

use vstd::prelude::*;

use crate::error::TextError;
use std::collections::HashMap;

verus! {

broadcast use vstd::std_specs::hash::group_hash_axioms;

/// Identifier of one loaded font, unique for the lifetime of the registry.
#[derive(Debug, Clone, Copy, PartialEq, Eq, Structural, Hash)]
pub struct FontId(pub u64);

impl Default for FontId {
    fn default() -> (r: FontId)
        ensures
            r.0 == 0,
    {
        FontId(0)
    }
}

/// The character index right after the last `/` in `s`; 0 when there is
/// none: where the name of the file begins.
pub open spec fn tail_start(s: Seq<char>) -> int
    decreases s.len(),
{
    if s.len() == 0 {
        0
    } else if s[s.len() - 1] == '/' {
        s.len() as int
    } else {
        tail_start(s.drop_last())
    }
}

/// The length of the stem of a file name `t`: everything before the last
/// `.`, except that a leading dot never splits a stem off.
pub open spec fn stem_len(t: Seq<char>) -> int
    decreases t.len(),
{
    if t.len() <= 1 {
        t.len() as int
    } else if t[t.len() - 1] == '.' {
        t.len() - 1
    } else if stem_len(t.drop_last()) == t.len() - 1 {
        t.len() as int
    } else {
        stem_len(t.drop_last())
    }
}

/// The family name read off a font file path: the stem of the file name, or
/// "unknown" where the path ends in a separator or is empty.
pub open spec fn spec_family_name(s: Seq<char>) -> Seq<char> {
    let t = s.subrange(tail_start(s), s.len() as int);
    if stem_len(t) == 0 {
        "unknown"@
    } else {
        t.subrange(0, stem_len(t))
    }
}

proof fn lemma_tail_start_bounds(s: Seq<char>)
    ensures
        0 <= tail_start(s) <= s.len(),
    decreases s.len(),
{
    if s.len() > 0 && s[s.len() - 1] != '/' {
        lemma_tail_start_bounds(s.drop_last());
    }
}

proof fn lemma_stem_len_bounds(t: Seq<char>)
    ensures
        0 <= stem_len(t) <= t.len(),
        t.len() > 0 ==> 1 <= stem_len(t),
    decreases t.len(),
{
    if t.len() > 1 && t[t.len() - 1] != '.' {
        lemma_stem_len_bounds(t.drop_last());
    }
}

proof fn lemma_tail_start_take(s: Seq<char>, i: int)
    requires
        0 <= i <= s.len(),
        forall|j: int| i <= j < s.len() ==> s[j] != '/',
    ensures
        tail_start(s) == tail_start(s.take(i)),
    decreases s.len() - i,
{
    if i == s.len() {
        assert(s.take(i) =~= s);
    } else {
        assert(s[s.len() - 1] != '/');
        assert(s.drop_last() =~= s.take(s.len() - 1));
        lemma_tail_start_take(s.take(s.len() - 1), i);
        assert(s.take(s.len() - 1).take(i) =~= s.take(i));
    }
}

proof fn lemma_stem_len_take(t: Seq<char>, i: int)
    requires
        1 <= i <= t.len(),
        forall|j: int| i <= j < t.len() ==> t[j] != '.',
    ensures
        stem_len(t) == if stem_len(t.take(i)) == i {
            t.len() as int
        } else {
            stem_len(t.take(i))
        },
    decreases t.len() - i,
{
    lemma_stem_len_bounds(t.take(i));
    if i == t.len() {
        assert(t.take(i) =~= t);
    } else {
        assert(t[t.len() - 1] != '.');
        assert(t.drop_last() =~= t.take(t.len() - 1));
        lemma_stem_len_take(t.take(t.len() - 1), i);
        assert(t.take(t.len() - 1).take(i) =~= t.take(i));
    }
}

/// The family name the registry derives from a font file path: the file
/// name's stem, or "unknown" where the path yields none.
pub fn family_name_from_path(path: &str) -> (name: String)
    ensures
        name@ == spec_family_name(path@),
{
    let n = path.unicode_len();
    let mut ts: usize = n;
    while ts > 0 && path.get_char(ts - 1) != '/'
        invariant
            ts <= n,
            n == path@.len(),
            forall|j: int| ts <= j < n ==> path@[j] != '/',
        decreases ts,
    {
        ts = ts - 1;
    }
    proof {
        lemma_tail_start_take(path@, ts as int);
        if ts > 0 {
            assert(path@.take(ts as int)[ts - 1] == '/');
        }
        assert(tail_start(path@) == ts);
    }
    let t = path.substring_char(ts, n);
    let m = t.unicode_len();
    let mut se: usize = m;
    while se > 1 && t.get_char(se - 1) != '.'
        invariant
            se <= m,
            m > 0 ==> se >= 1,
            m == t@.len(),
            forall|j: int| se <= j < m ==> t@[j] != '.',
        decreases se,
    {
        se = se - 1;
    }
    let sl: usize;
    if se >= 2 {
        proof {
            lemma_stem_len_take(t@, se as int);
            assert(t@.take(se as int)[se - 1] == '.');
            lemma_stem_len_bounds(t@.take(se as int));
        }
        sl = se - 1;
    } else if se == 1 {
        proof {
            lemma_stem_len_take(t@, 1);
        }
        sl = m;
    } else {
        sl = 0;
    }
    assert(sl == stem_len(t@));
    if sl == 0 {
        "unknown".to_string()
    } else {
        let stem = t.substring_char(0, sl);
        stem.to_string()
    }
}

/// The font registry: owns the shaping collaborator's font system and maps
/// each identifier it handed out to the family name registered with it.
pub struct FontRegistry {
    pub sys: cosmic_text::FontSystem,
    pub next_id: u64,
    pub families: HashMap<u64, String>,
}

/// Relies on cosmic_text::FontSystem::db_mut and fontdb::Database::
/// load_font_data: registers the given bytes as a font source in the
/// database; malformed data is simply never matched by a query.
#[verifier::external_body]
fn load_font_data(sys: &mut cosmic_text::FontSystem, data: &[u8]) {
    sys.db_mut().load_font_data(data.to_vec());
}

impl FontRegistry {
    /// Identifiers already handed out are exactly those below `next_id`,
    /// so the next one is always fresh.
    pub open spec fn wf(self) -> bool {
        &&& 1 <= self.next_id
        &&& forall|k: u64|
            #[trigger] self.families@.contains_key(k) ==> 1 <= k && k < self.next_id
    }

    /// A fresh registry around an already-initialized font system.
    pub fn new(sys: cosmic_text::FontSystem) -> (r: FontRegistry)
        ensures
            r.wf(),
            r.next_id == 1,
            r.families@ == Map::<u64, String>::empty(),
    {
        FontRegistry { sys, next_id: 1, families: HashMap::new() }
    }

    /// Register font data under the given family name and hand out a fresh
    /// identifier for it. Fails only when the identifier space is used up.
    pub fn load_font_from_bytes(&mut self, data: &[u8], name: &str) -> (r: Result<
        FontId,
        TextError,
    >)
        requires
            old(self).wf(),
        ensures
            final(self).wf(),
            r is Ok <==> old(self).next_id < u64::MAX,
            r matches Ok(id) ==> {
                &&& id.0 == old(self).next_id
                &&& !old(self).families@.contains_key(id.0)
                &&& final(self).next_id == old(self).next_id + 1
                &&& final(self).families@.contains_key(id.0)
                &&& final(self).families@[id.0]@ == name@
                &&& forall|k: u64|
                    k != id.0 ==> (#[trigger] final(self).families@.contains_key(k) <==> old(self).families@.contains_key(k))
                &&& forall|k: u64|
                    k != id.0 && old(self).families@.contains_key(k) ==> #[trigger] final(self).families@[k] == old(self).families@[k]
            },
            r is Err ==> final(self).next_id == old(self).next_id && final(self).families@ == old(self).families@,
    {
        if self.next_id == u64::MAX {
            return Err(TextError::FontLoading("font identifier space exhausted".to_string()));
        }
        load_font_data(&mut self.sys, data);
        let id = FontId(self.next_id);
        self.next_id = self.next_id + 1;
        self.families.insert(id.0, name.to_string());
        Ok(id)
    }

    /// The family name registered under `id`, if `id` was handed out here.
    pub fn get_family_name(&self, id: FontId) -> (r: Option<&String>)
        ensures
            match r {
                Some(s) => self.families@.contains_key(id.0) && *s == self.families@[id.0],
                None => !self.families@.contains_key(id.0),
            },
    {
        self.families.get(&id.0)
    }
}

} // verus!
