use vstd::prelude::*;

verus! {

/// True when no two entries of `v` hold the same text.
pub open spec fn distinct_texts(v: Seq<String>) -> bool {
    forall|i: int, j: int|
        0 <= i < v.len() && 0 <= j < v.len() && i != j ==> #[trigger] v[i]@ != #[trigger] v[j]@
}

/// The set of texts held by `v`.
pub open spec fn texts_of(v: Seq<String>) -> Set<Seq<char>> {
    Set::new(|t: Seq<char>| exists|i: int| 0 <= i < v.len() && #[trigger] v[i]@ == t)
}

/// Whether `issue` records candidate `c` in a store whose outstanding tokens
/// are `outstanding` and whose consumed tokens are `spent`.
pub open spec fn issue_accepts(outstanding: Set<Seq<char>>, spent: Set<Seq<char>>, c: Seq<char>) -> bool {
    !(outstanding.contains(c) || spent.contains(c))
}

/// Index of an entry of `v` whose text is `token`.
fn find_text(v: &Vec<String>, token: &str) -> (r: Option<usize>)
    ensures
        match r {
            Some(i) => i < v@.len() && v@[i as int]@ == token@,
            None => forall|i: int| 0 <= i < v@.len() ==> #[trigger] v@[i]@ != token@,
        },
{
    let wanted = token.to_owned();
    let mut i: usize = 0;
    while i < v.len()
        invariant
            i <= v@.len(),
            wanted@ == token@,
            forall|j: int| 0 <= j < i ==> #[trigger] v@[j]@ != token@,
        decreases v@.len() - i,
    {
        if v[i] == wanted {
            return Some(i);
        }
        i = i + 1;
    }
    None
}

/// Whether some entry of `v` has the text `token`.
fn holds_text(v: &Vec<String>, token: &str) -> (r: bool)
    ensures
        r == texts_of(v@).contains(token@),
{
    match find_text(v, token) {
        Some(i) => {
            assert(v@[i as int]@ == token@);
            true
        },
        None => false,
    }
}

/// Challenge tokens: those issued and not yet consumed (the view), and those
/// already consumed (`spent`).
///
/// A token leaves the outstanding set only through a successful
/// [`TokenStore::validate_and_consume`], which records it as spent, and
/// `issue` refuses a spent token, so no token is ever accepted twice. Tokens
/// carry no expiry: one that is issued and never answered stays outstanding,
/// and a spent one stays recorded, for the life of the store.
pub struct TokenStore {
    tokens: Vec<String>,
    spent: Vec<String>,
}

impl View for TokenStore {
    type V = Set<Seq<char>>;

    closed spec fn view(&self) -> Set<Seq<char>> {
        texts_of(self.tokens@)
    }
}

impl TokenStore {
    /// Tokens that were consumed.
    pub closed spec fn spent(&self) -> Set<Seq<char>> {
        texts_of(self.spent@)
    }

    /// Well-formed: every outstanding token is held once, and none of them
    /// is spent.
    pub closed spec fn wf(&self) -> bool {
        &&& distinct_texts(self.tokens@)
        &&& texts_of(self.tokens@).disjoint(texts_of(self.spent@))
    }

    /// An empty store.
    pub fn new() -> (r: Self)
        ensures
            r.wf(),
            r@ == Set::<Seq<char>>::empty(),
            r.spent() == Set::<Seq<char>>::empty(),
    {
        let r = TokenStore { tokens: Vec::new(), spent: Vec::new() };
        assert(r@ =~= Set::<Seq<char>>::empty());
        assert(r.spent() =~= Set::<Seq<char>>::empty());
        r
    }

    /// Whether `token` is outstanding.
    pub fn contains(&self, token: &str) -> (r: bool)
        ensures
            r == self@.contains(token@),
    {
        holds_text(&self.tokens, token)
    }

    /// Whether `token` was consumed.
    pub fn is_spent(&self, token: &str) -> (r: bool)
        ensures
            r == self.spent().contains(token@),
    {
        holds_text(&self.spent, token)
    }

    /// Records `candidate` as outstanding. Refuses, and leaves the store as it
    /// was, a candidate that is outstanding or spent. Returns whether it was
    /// recorded.
    pub fn issue(&mut self, candidate: String) -> (r: bool)
        requires
            old(self).wf(),
        ensures
            final(self).wf(),
            r == issue_accepts(old(self)@, old(self).spent(), candidate@),
            final(self)@ == if r { old(self)@.insert(candidate@) } else { old(self)@ },
            final(self).spent() == old(self).spent(),
    {
        if self.contains(candidate.as_str()) || self.is_spent(candidate.as_str()) {
            false
        } else {
            let ghost before = self.tokens@;
            let ghost c = candidate@;
            self.tokens.push(candidate);
            assert(self.tokens@[before.len() as int]@ == c);
            assert(forall|i: int| 0 <= i < before.len() ==> self.tokens@[i] == before[i]);
            assert(self@ =~= texts_of(before).insert(c));
            true
        }
    }

    /// Checks whether `token` is outstanding and, if so, moves it to the spent
    /// tokens, in one step. Returns whether it was outstanding.
    pub fn validate_and_consume(&mut self, token: &str) -> (r: bool)
        requires
            old(self).wf(),
        ensures
            final(self).wf(),
            r == old(self)@.contains(token@),
            final(self)@ == old(self)@.remove(token@),
            final(self).spent() == if r { old(self).spent().insert(token@) } else { old(self).spent() },
    {
        match find_text(&self.tokens, token) {
            Some(i) => {
                let ghost before = self.tokens@;
                let ghost spent_before = self.spent@;
                assert(texts_of(before).contains(token@)) by {
                    assert(before[i as int]@ == token@);
                }
                let t = self.tokens.remove(i);
                let ghost after = self.tokens@;
                assert(after =~= before.remove(i as int));
                assert forall|x: Seq<char>| #[trigger] texts_of(after).contains(x)
                    == texts_of(before).remove(token@).contains(x) by {
                    if texts_of(after).contains(x) {
                        let j = choose|j: int| 0 <= j < after.len() && #[trigger] after[j]@ == x;
                        let k = if j < i { j } else { j + 1 };
                        assert(before[k]@ == x);
                        assert(k != i);
                    }
                    if texts_of(before).remove(token@).contains(x) {
                        let k = choose|k: int| 0 <= k < before.len() && #[trigger] before[k]@ == x;
                        assert(k != i);
                        let j = if k < i { k } else { k - 1 };
                        assert(after[j]@ == x);
                    }
                }
                assert(self@ =~= texts_of(before).remove(token@));
                self.spent.push(t);
                assert(self.spent@[spent_before.len() as int]@ == token@);
                assert(forall|k: int| 0 <= k < spent_before.len() ==> self.spent@[k] == spent_before[k]);
                assert(self.spent() =~= texts_of(spent_before).insert(token@));
                true
            },
            None => {
                assert(self@.remove(token@) =~= self@);
                false
            },
        }
    }
}

} // verus!
