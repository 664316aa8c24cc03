//! Keymaps: keybinds mapped to actions or to nested modes of further
//! keybinds.
use vstd::prelude::*;

use crate::actionhandler::Action;
use crate::keyaction::{KeyAction, KeyActionVisibility};
use crate::keys::Keybind;

verus! {

/// What a keybind is bound to: an action, or a mode with a keymap of its own
/// that the next key press is looked up in.
#[derive(Debug, PartialEq)]
pub enum KeyActionTree<A> {
    Key(KeyAction<A>),
    Mode { keys: Keymap<A>, name: Option<String> },
}

/// A map from keybinds to what they are bound to. Each keybind occurs at
/// most once; the bindings keep the order in which their keybinds were first
/// inserted.
#[derive(Debug, PartialEq)]
pub struct Keymap<A> {
    entries: Vec<(Keybind, KeyActionTree<A>)>,
}

/// No keybind occurs twice in `s`.
pub open spec fn keybinds_distinct<A>(s: Seq<(Keybind, KeyActionTree<A>)>) -> bool {
    forall|i: int, j: int| 0 <= i < j < s.len() ==> s[i].0 != s[j].0
}

/// What `kb` is bound to in the bindings `s`: the target of its first
/// binding, if any.
pub open spec fn lookup_in<A>(s: Seq<(Keybind, KeyActionTree<A>)>, kb: Keybind) -> Option<
    KeyActionTree<A>,
>
    decreases s.len(),
{
    if s.len() == 0 {
        None
    } else if s[0].0 == kb {
        Some(s[0].1)
    } else {
        lookup_in(s.drop_first(), kb)
    }
}

/// The bindings `s` with `kb` bound to `t`: the binding of `kb` is replaced
/// in place, or appended when there is none.
pub open spec fn insert_in<A>(
    s: Seq<(Keybind, KeyActionTree<A>)>,
    kb: Keybind,
    t: KeyActionTree<A>,
) -> Seq<(Keybind, KeyActionTree<A>)>
    decreases s.len(),
{
    if s.len() == 0 {
        seq![(kb, t)]
    } else if s[0].0 == kb {
        seq![(kb, t)] + s.drop_first()
    } else {
        seq![s[0]] + insert_in(s.drop_first(), kb, t)
    }
}

/// The bindings made by inserting the pairs of `pairs` in order into an
/// empty keymap.
pub open spec fn bindings_from_pairs<A>(pairs: Seq<(Keybind, KeyActionTree<A>)>) -> Seq<
    (Keybind, KeyActionTree<A>),
>
    decreases pairs.len(),
{
    if pairs.len() == 0 {
        Seq::empty()
    } else {
        insert_in(bindings_from_pairs(pairs.drop_last()), pairs.last().0, pairs.last().1)
    }
}

/// The target of the last pair of `pairs` whose keybind is `kb`.
pub open spec fn last_binding_in<A>(pairs: Seq<(Keybind, KeyActionTree<A>)>, kb: Keybind) -> Option<
    KeyActionTree<A>,
>
    decreases pairs.len(),
{
    if pairs.len() == 0 {
        None
    } else if pairs.last().0 == kb {
        Some(pairs.last().1)
    } else {
        last_binding_in(pairs.drop_last(), kb)
    }
}

/// Looking up a keybind ignores the bindings before index `i` when none of
/// them binds it.
proof fn lemma_lookup_skip<A>(s: Seq<(Keybind, KeyActionTree<A>)>, kb: Keybind, i: int)
    requires
        0 <= i <= s.len(),
        forall|j: int| 0 <= j < i ==> s[j].0 != kb,
    ensures
        lookup_in(s, kb) == lookup_in(s.skip(i), kb),
    decreases i,
{
    if i > 0 {
        lemma_lookup_skip(s.drop_first(), kb, i - 1);
        assert(s.drop_first().skip(i - 1) =~= s.skip(i));
    } else {
        assert(s.skip(0) =~= s);
    }
}

/// Where the first binding of `kb` is at index `i`, `insert_in` replaces it.
proof fn lemma_insert_at<A>(s: Seq<(Keybind, KeyActionTree<A>)>, kb: Keybind, t: KeyActionTree<A>, i: int)
    requires
        0 <= i < s.len(),
        s[i].0 == kb,
        forall|j: int| 0 <= j < i ==> s[j].0 != kb,
    ensures
        insert_in(s, kb, t) == s.update(i, (kb, t)),
    decreases i,
{
    if i == 0 {
        assert(insert_in(s, kb, t) =~= s.update(i, (kb, t)));
    } else {
        assert(s[0].0 != kb);
        lemma_insert_at(s.drop_first(), kb, t, i - 1);
        assert(insert_in(s, kb, t) =~= s.update(i, (kb, t)));
    }
}

/// Where `kb` is not bound, `insert_in` appends its binding.
proof fn lemma_insert_absent<A>(s: Seq<(Keybind, KeyActionTree<A>)>, kb: Keybind, t: KeyActionTree<A>)
    requires
        forall|j: int| 0 <= j < s.len() ==> s[j].0 != kb,
    ensures
        insert_in(s, kb, t) == s.push((kb, t)),
    decreases s.len(),
{
    if s.len() > 0 {
        assert(s[0].0 != kb);
        lemma_insert_absent(s.drop_first(), kb, t);
        assert(insert_in(s, kb, t) =~= s.push((kb, t)));
    } else {
        assert(insert_in(s, kb, t) =~= s.push((kb, t)));
    }
}

/// After binding `kb` to `t`, looking up `kb` gives `t` and looking up any
/// other keybind gives what it gave before.
pub proof fn law_lookup_after_insert<A>(
    s: Seq<(Keybind, KeyActionTree<A>)>,
    kb: Keybind,
    t: KeyActionTree<A>,
    other: Keybind,
)
    ensures
        lookup_in(insert_in(s, kb, t), kb) == Some(t),
        other != kb ==> lookup_in(insert_in(s, kb, t), other) == lookup_in(s, other),
    decreases s.len(),
{
    let r = insert_in(s, kb, t);
    if s.len() > 0 {
        law_lookup_after_insert(s.drop_first(), kb, t, other);
        if s[0].0 == kb {
            assert(r[0] == (kb, t));
            assert(r.drop_first() =~= s.drop_first());
        } else {
            assert(r[0] == s[0]);
            assert(r.drop_first() =~= insert_in(s.drop_first(), kb, t));
        }
    } else {
        assert(r[0] == (kb, t));
        assert(r.drop_first() =~= s);
    }
}

/// Inserting keeps the keybinds of a keymap distinct.
proof fn lemma_insert_distinct<A>(s: Seq<(Keybind, KeyActionTree<A>)>, kb: Keybind, t: KeyActionTree<A>)
    requires
        keybinds_distinct(s),
    ensures
        keybinds_distinct(insert_in(s, kb, t)),
{
    let r = insert_in(s, kb, t);
    if exists|i: int| 0 <= i < s.len() && s[i].0 == kb {
        let w = choose|i: int| 0 <= i < s.len() && s[i].0 == kb;
        assert forall|j: int| 0 <= j < w && j != w implies s[j].0 != kb by {}
        lemma_insert_at(s, kb, t, w);
        assert forall|a: int, b: int| 0 <= a < b < r.len() implies r[a].0 != r[b].0 by {
            assert(r[a].0 == s[a].0);
            assert(r[b].0 == s[b].0);
        }
    } else {
        lemma_insert_absent(s, kb, t);
        assert forall|a: int, b: int| 0 <= a < b < r.len() implies r[a].0 != r[b].0 by {
            if b == s.len() {
                assert(r[a] == s[a]);
            } else {
                assert(r[a] == s[a] && r[b] == s[b]);
            }
        }
    }
}

/// The bindings made from a sequence of pairs bind each keybind to the
/// target of the last pair that names it.
pub proof fn law_lookup_from_pairs<A>(pairs: Seq<(Keybind, KeyActionTree<A>)>, kb: Keybind)
    ensures
        lookup_in(bindings_from_pairs(pairs), kb) == last_binding_in(pairs, kb),
    decreases pairs.len(),
{
    if pairs.len() > 0 {
        law_lookup_from_pairs(pairs.drop_last(), kb);
        law_lookup_after_insert(bindings_from_pairs(pairs.drop_last()), pairs.last().0, pairs.last().1, kb);
    }
}

impl<A> Keymap<A> {
    #[verifier::type_invariant]
    spec fn no_duplicate_keybinds(self) -> bool {
        keybinds_distinct(self.entries@)
    }

    /// The bindings of the keymap, in order.
    pub closed spec fn bindings(self) -> Seq<(Keybind, KeyActionTree<A>)> {
        self.entries@
    }

    /// What `kb` is bound to in this keymap.
    pub open spec fn lookup(self, kb: Keybind) -> Option<KeyActionTree<A>> {
        lookup_in(self.bindings(), kb)
    }

    /// An empty keymap.
    pub fn new() -> (km: Keymap<A>)
        ensures
            km.bindings() == Seq::<(Keybind, KeyActionTree<A>)>::empty(),
    {
        Keymap { entries: Vec::new() }
    }

    /// The number of keybinds bound.
    pub fn len(&self) -> (n: usize)
        ensures
            n == self.bindings().len(),
    {
        self.entries.len()
    }

    /// The bindings of the keymap, in order; no keybind occurs twice.
    pub fn as_slice(&self) -> (s: &[(Keybind, KeyActionTree<A>)])
        ensures
            s@ == self.bindings(),
            keybinds_distinct(s@),
    {
        proof {
            use_type_invariant(self);
        }
        self.entries.as_slice()
    }

    /// What `kb` is bound to, if anything.
    pub fn get(&self, kb: &Keybind) -> (r: Option<&KeyActionTree<A>>)
        ensures
            match r {
                Some(t) => self.lookup(*kb) == Some(*t),
                None => self.lookup(*kb) is None,
            },
    {
        let n = self.entries.len();
        let mut i: usize = 0;
        while i < n
            invariant
                n == self.entries@.len(),
                0 <= i <= n,
                forall|j: int| 0 <= j < i ==> self.entries@[j].0 != *kb,
            decreases n - i,
        {
            if self.entries[i].0 == *kb {
                proof {
                    lemma_lookup_skip(self.entries@, *kb, i as int);
                    assert(self.entries@.skip(i as int)[0] == self.entries@[i as int]);
                }
                return Some(&self.entries[i].1);
            }
            i = i + 1;
        }
        proof {
            lemma_lookup_skip(self.entries@, *kb, n as int);
        }
        None
    }

    /// Binds `kb` to `t`, replacing in place what `kb` was bound to, or
    /// adding the binding after all others.
    #[verifier::loop_isolation(false)]
    pub fn insert(&mut self, kb: Keybind, t: KeyActionTree<A>)
        ensures
            final(self).bindings() == insert_in(old(self).bindings(), kb, t),
            final(self).lookup(kb) == Some(t),
            forall|other: Keybind|
                other != kb ==> #[trigger] final(self).lookup(other) == old(self).lookup(other),
    {
        proof {
            use_type_invariant(&*self);
            lemma_insert_distinct(self.entries@, kb, t);
            assert forall|other: Keybind| other != kb implies lookup_in(
                insert_in(self.entries@, kb, t),
                other,
            ) == lookup_in(self.entries@, other) by {
                law_lookup_after_insert(self.entries@, kb, t, other);
            }
            law_lookup_after_insert(self.entries@, kb, t, kb);
        }
        let ghost before = self.entries@;
        let mut entries: Vec<(Keybind, KeyActionTree<A>)> = Vec::new();
        std::mem::swap(&mut entries, &mut self.entries);
        let n = entries.len();
        let mut i: usize = 0;
        while i < n
            invariant
                entries@ == before,
                keybinds_distinct(before),
                n == before.len(),
                0 <= i <= n,
                forall|j: int| 0 <= j < i ==> before[j].0 != kb,
            decreases n - i,
        {
            if entries[i].0 == kb {
                proof {
                    lemma_insert_at(before, kb, t, i as int);
                    lemma_insert_distinct(before, kb, t);
                }
                entries.set(i, (kb, t));
                self.entries = entries;
                return;
            }
            i = i + 1;
        }
        proof {
            lemma_insert_absent(before, kb, t);
        }
        entries.push((kb, t));
        self.entries = entries;
    }

    /// The keymap made by inserting the pairs of `pairs` in order into an
    /// empty keymap; where a keybind occurs more than once, its last pair
    /// wins.
    pub fn from_pairs(pairs: Vec<(Keybind, KeyActionTree<A>)>) -> (km: Keymap<A>)
        ensures
            km.bindings() == bindings_from_pairs(pairs@),
            forall|kb: Keybind| #[trigger] km.lookup(kb) == last_binding_in(pairs@, kb),
    {
        let ghost all = pairs@;
        let total = pairs.len();
        let mut rest = pairs;
        let mut km: Keymap<A> = Keymap::new();
        let mut k: usize = 0;
        while rest.len() > 0
            invariant
                0 <= k <= all.len(),
                total == all.len(),
                rest@ == all.skip(k as int),
                km.bindings() == bindings_from_pairs(all.take(k as int)),
            decreases rest@.len(),
        {
            let (kb, t) = rest.remove(0);
            proof {
                assert(all.take(k + 1).drop_last() =~= all.take(k as int));
                assert(all.skip(k as int)[0] == all[k as int]);
                assert(all.skip(k + 1) =~= all.skip(k as int).drop_first());
            }
            km.insert(kb, t);
            k = k + 1;
        }
        proof {
            assert(all.take(k as int) =~= all);
            assert forall|kb: Keybind| #[trigger] km.lookup(kb) == last_binding_in(all, kb) by {
                law_lookup_from_pairs(all, kb);
            }
        }
        km
    }
}

impl<A> KeyActionTree<A> {
    /// A binding to `action`, shown in the help menu.
    pub fn new_key(action: A) -> (t: KeyActionTree<A>)
        ensures
            t == KeyActionTree::Key(KeyAction { action, visibility: KeyActionVisibility::Standard }),
    {
        KeyActionTree::Key(KeyAction { action, visibility: KeyActionVisibility::Standard })
    }

    /// A mode named `name` whose keymap is made from `pairs` in order.
    pub fn new_mode(pairs: Vec<(Keybind, KeyActionTree<A>)>, name: String) -> (t: KeyActionTree<A>)
        ensures
            t matches KeyActionTree::Mode { keys, name: Some(n) } && keys.bindings()
                == bindings_from_pairs(pairs@) && n == name,
    {
        KeyActionTree::Mode { keys: Keymap::from_pairs(pairs), name: Some(name) }
    }

    /// The visibility of a binding; a mode has the default visibility.
    pub fn get_visibility(&self) -> (v: KeyActionVisibility)
        ensures
            v == tree_visibility(*self),
    {
        match self {
            KeyActionTree::Key(k) => k.visibility,
            KeyActionTree::Mode { .. } => KeyActionVisibility::default(),
        }
    }
}

/// The visibility of what a keybind is bound to.
pub open spec fn tree_visibility<A>(t: KeyActionTree<A>) -> KeyActionVisibility {
    match t {
        KeyActionTree::Key(k) => k.visibility,
        KeyActionTree::Mode { .. } => KeyActionVisibility::Standard,
    }
}

/// The context shown for what a keybind is bound to: an action's own
/// context, or for a mode the context of its first binding (empty for a
/// mode without bindings).
pub open spec fn tree_context<A: Action>(t: KeyActionTree<A>) -> Seq<char>
    decreases t,
{
    match t {
        KeyActionTree::Key(k) => k.action.context_text(),
        KeyActionTree::Mode { keys, .. } => if keys.bindings().len() > 0 {
            tree_context(keys.bindings()[0].1)
        } else {
            Seq::empty()
        },
    }
}

impl<A: Action> KeyActionTree<A> {
    /// The context of what a keybind is bound to.
    pub fn get_context(&self) -> (r: String)
        ensures
            r@ == tree_context(*self),
        decreases self,
    {
        match self {
            KeyActionTree::Key(k) => k.action.context(),
            KeyActionTree::Mode { keys, .. } => {
                if keys.entries.len() > 0 {
                    keys.entries[0].1.get_context()
                } else {
                    String::new()
                }
            },
        }
    }
}

} // verus!
