//! Keyboard and mouse input waiting to be read by a running program.
use vstd::prelude::*;

use crate::interpreter::language::token::strings_view;
use crate::table::NameMap;
use std::collections::VecDeque;

verus! {

/// Keys typed and clicks made, in the order they came, and the keys held
/// down. A click is kept as whatever the user interface reports for it.
#[derive(Debug)]
pub struct InputManager<C> {
    key_buffer: VecDeque<String>,
    keys_down: NameMap<()>,
    click_buffer: VecDeque<C>,
}

impl<C> InputManager<C> {
    /// The keys typed and not yet read, oldest first.
    pub closed spec fn keys(self) -> Seq<Seq<char>> {
        self.key_buffer@.map_values(|k: String| k@)
    }

    /// The keys held down.
    pub closed spec fn down(self) -> Set<Seq<char>> {
        self.keys_down.map().dom()
    }

    /// The clicks made and not yet read, oldest first.
    pub closed spec fn clicks(self) -> Seq<C> {
        self.click_buffer@
    }

    /// The table of keys held down is well formed.
    pub closed spec fn wf(self) -> bool {
        self.keys_down.wf()
    }

    /// No keys, no clicks, nothing held down.
    pub fn new() -> (m: Self)
        ensures
            m.wf(),
            m.keys() == Seq::<Seq<char>>::empty(),
            m.down() == Set::<Seq<char>>::empty(),
            m.clicks() == Seq::<C>::empty(),
    {
        let m = InputManager {
            key_buffer: VecDeque::new(),
            keys_down: NameMap::new(),
            click_buffer: VecDeque::new(),
        };
        assert(m.keys() =~= Seq::<Seq<char>>::empty());
        assert(m.down() =~= Set::<Seq<char>>::empty());
        m
    }

    /// Whether a typed key waits to be read.
    pub fn has_key(&mut self) -> (b: bool)
        ensures
            *final(self) == *old(self),
            b == (old(self).keys().len() > 0),
    {
        self.key_buffer.len() > 0
    }

    /// Reads the oldest typed key, if any.
    pub fn get_one_key(&mut self) -> (r: Option<String>)
        requires
            old(self).wf(),
        ensures
            final(self).wf(),
            final(self).down() == old(self).down(),
            final(self).clicks() == old(self).clicks(),
            match r {
                Some(k) => old(self).keys().len() > 0 && k@ == old(self).keys()[0]
                    && final(self).keys() == old(self).keys().drop_first(),
                None => old(self).keys().len() == 0 && final(self).keys() == old(self).keys(),
            },
    {
        let r = self.key_buffer.pop_front();
        assert(r is Some ==> self.keys() =~= old(self).keys().drop_first());
        r
    }

    /// Adds a typed key after those waiting.
    pub fn add_key_to_buffer(&mut self, key: String)
        requires
            old(self).wf(),
        ensures
            final(self).wf(),
            final(self).keys() == old(self).keys().push(key@),
            final(self).down() == old(self).down(),
            final(self).clicks() == old(self).clicks(),
    {
        let ghost k = key@;
        self.key_buffer.push_back(key);
        assert(self.keys() =~= old(self).keys().push(k));
    }

    /// Whether `key` is held down.
    pub fn is_key_down(&self, key: &String) -> (b: bool)
        ensures
            b == self.down().contains(key@),
    {
        self.keys_down.contains_key(key.as_str())
    }

    /// Records that `key` is held down.
    pub fn set_key_down(&mut self, key: String)
        requires
            old(self).wf(),
        ensures
            final(self).wf(),
            final(self).down() == old(self).down().insert(key@),
            final(self).keys() == old(self).keys(),
            final(self).clicks() == old(self).clicks(),
    {
        self.keys_down.insert(key, ());
        assert(self.down() =~= old(self).down().insert(key@));
    }

    /// Records that `key` is no longer held down.
    pub fn set_key_up(&mut self, key: &String)
        requires
            old(self).wf(),
        ensures
            final(self).wf(),
            final(self).down() == old(self).down().remove(key@),
            final(self).keys() == old(self).keys(),
            final(self).clicks() == old(self).clicks(),
    {
        self.keys_down.remove(key.as_str());
        assert(self.down() =~= old(self).down().remove(key@));
    }

    /// Whether a click waits to be read.
    pub fn has_click(&mut self) -> (b: bool)
        ensures
            *final(self) == *old(self),
            b == (old(self).clicks().len() > 0),
    {
        self.click_buffer.len() > 0
    }

    /// Reads the oldest click, if any.
    pub fn get_one_click(&mut self) -> (r: Option<C>)
        requires
            old(self).wf(),
        ensures
            final(self).wf(),
            final(self).keys() == old(self).keys(),
            final(self).down() == old(self).down(),
            match r {
                Some(c) => old(self).clicks().len() > 0 && c == old(self).clicks()[0]
                    && final(self).clicks() == old(self).clicks().drop_first(),
                None => old(self).clicks().len() == 0 && final(self).clicks() == old(self).clicks(),
            },
    {
        let r = self.click_buffer.pop_front();
        assert(r is Some ==> self.clicks() =~= old(self).clicks().drop_first());
        r
    }

    /// Adds a click after those waiting.
    pub fn add_click_to_buffer(&mut self, click: C)
        requires
            old(self).wf(),
        ensures
            final(self).wf(),
            final(self).clicks() == old(self).clicks().push(click),
            final(self).keys() == old(self).keys(),
            final(self).down() == old(self).down(),
    {
        self.click_buffer.push_back(click);
    }
}

/// Typed keys are read in the order they were typed: adding a key to a
/// buffer and then reading one gives the oldest key, and leaves the rest,
/// with the new key last.
pub proof fn law_first_in_first_out(buffer: Seq<Seq<char>>, key: Seq<char>)
    ensures
        buffer.push(key)[0] == if buffer.len() > 0 {
            buffer[0]
        } else {
            key
        },
        buffer.push(key).drop_first() == if buffer.len() > 0 {
            buffer.drop_first().push(key)
        } else {
            Seq::<Seq<char>>::empty()
        },
{
    if buffer.len() > 0 {
        assert(buffer.push(key).drop_first() =~= buffer.drop_first().push(key));
    } else {
        assert(buffer.push(key).drop_first() =~= Seq::<Seq<char>>::empty());
    }
}

/// Releasing a key that was not held down before it was pressed leaves the
/// keys held down as they were.
pub proof fn law_release_undoes_press(down: Set<Seq<char>>, key: Seq<char>)
    requires
        !down.contains(key),
    ensures
        down.insert(key).remove(key) == down,
{
    assert(down.insert(key).remove(key) =~= down);
}

/// The keys of `a` that are not in `b`, in the order of `a`.
pub open spec fn keys_not_in(a: Seq<Seq<char>>, b: Seq<Seq<char>>) -> Seq<Seq<char>>
    decreases a.len(),
{
    if a.len() == 0 {
        Seq::empty()
    } else {
        let r = keys_not_in(a.drop_last(), b);
        if b.contains(a.last()) {
            r
        } else {
            r.push(a.last())
        }
    }
}

/// Whether `keys` holds `key`.
fn holds_key(keys: &Vec<String>, key: &String) -> (b: bool)
    ensures
        b == strings_view(keys@).contains(key@),
{
    let mut i: usize = 0;
    while i < keys.len()
        invariant
            i <= keys@.len(),
            forall|j: int| 0 <= j < i ==> keys@[j]@ != key@,
        decreases keys@.len() - i,
    {
        if keys[i] == *key {
            assert(strings_view(keys@)[i as int] == key@);
            return true;
        }
        i = i + 1;
    }
    proof {
        if strings_view(keys@).contains(key@) {
            let j = choose|j: int| 0 <= j < strings_view(keys@).len() && strings_view(keys@)[j] == key@;
            assert(keys@[j]@ == key@);
        }
    }
    false
}

/// The keys of `a` that are not in `b`, in the order of `a`.
fn keys_missing(a: &Vec<String>, b: &Vec<String>) -> (r: Vec<String>)
    ensures
        strings_view(r@) == keys_not_in(strings_view(a@), strings_view(b@)),
{
    let mut r: Vec<String> = Vec::new();
    let mut i: usize = 0;
    while i < a.len()
        invariant
            i <= a@.len(),
            strings_view(r@) == keys_not_in(strings_view(a@).subrange(0, i as int), strings_view(b@)),
        decreases a@.len() - i,
    {
        let ghost before = strings_view(a@).subrange(0, i as int);
        let ghost after = strings_view(a@).subrange(0, i + 1);
        assert(after.drop_last() =~= before);
        assert(after.last() == a@[i as int]@);
        if !holds_key(b, &a[i]) {
            r.push(a[i].clone());
            assert(strings_view(r@) =~= keys_not_in(before, strings_view(b@)).push(a@[i as int]@));
        }
        i = i + 1;
    }
    assert(strings_view(a@).subrange(0, a@.len() as int) =~= strings_view(a@));
    r
}

/// The keys pressed and released between two readings of the keys held
/// down: those held now and not before, and those held before and not now,
/// each in the order of its reading.
pub fn key_changes(previous: &Vec<String>, current: &Vec<String>) -> (r: (Vec<String>, Vec<String>))
    ensures
        strings_view(r.0@) == keys_not_in(strings_view(current@), strings_view(previous@)),
        strings_view(r.1@) == keys_not_in(strings_view(previous@), strings_view(current@)),
{
    (keys_missing(current, previous), keys_missing(previous, current))
}

} // verus!


