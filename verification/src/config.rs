use vstd::prelude::*;
use crate::direction::{Direction, clockwise_index};

verus! {

/// The name of a modifier key held while a shortcut fires, such as `Ctrl`.
#[derive(Debug, PartialEq)]
pub struct Modifier(pub String);

/// A keyboard shortcut: modifiers held down around one main key.
#[derive(Debug, PartialEq)]
pub struct Shortcut {
    pub modifiers: Vec<Modifier>,
    pub key: String,
    pub label: Option<String>,
}

/// What a shortcut says, as plain text.
pub struct ShortcutView {
    pub modifiers: Seq<Seq<char>>,
    pub key: Seq<char>,
    pub label: Option<Seq<char>>,
}

impl View for Modifier {
    type V = Seq<char>;

    open spec fn view(&self) -> Seq<char> {
        self.0@
    }
}

impl View for Shortcut {
    type V = ShortcutView;

    open spec fn view(&self) -> ShortcutView {
        ShortcutView {
            modifiers: self.modifiers@.map_values(|m: Modifier| m@),
            key: self.key@,
            label: match self.label {
                Some(l) => Some(l@),
                None => None,
            },
        }
    }
}

impl Clone for Modifier {
    fn clone(&self) -> (copy: Self)
        ensures
            copy@ == self@,
    {
        Modifier(self.0.clone())
    }
}

impl Clone for Shortcut {
    fn clone(&self) -> (copy: Self)
        ensures
            copy@ == self@,
    {
        let mut modifiers: Vec<Modifier> = Vec::new();
        let n = self.modifiers.len();
        for i in 0..n
            invariant
                n == self.modifiers@.len(),
                modifiers@.len() == i,
                forall|j: int| 0 <= j < i ==> #[trigger] modifiers@[j]@ == self.modifiers@[j]@,
        {
            modifiers.push(self.modifiers[i].clone());
        }
        assert(modifiers@.map_values(|m: Modifier| m@) =~= self.modifiers@.map_values(
            |m: Modifier| m@,
        ));
        let label = match &self.label {
            Some(l) => Some(l.clone()),
            None => None,
        };
        Shortcut { modifiers, key: self.key.clone(), label }
    }
}

/// The shortcut bound to each direction, if any.
pub struct Bindings {
    slots: [Option<Shortcut>; 8],
}

impl View for Bindings {
    type V = Map<Direction, ShortcutView>;

    closed spec fn view(&self) -> Map<Direction, ShortcutView> {
        Map::new(
            |d: Direction| self.slots@[clockwise_index(d)] is Some,
            |d: Direction| self.slots@[clockwise_index(d)]->0@,
        )
    }
}

impl Bindings {
    /// No direction bound.
    pub fn new() -> (b: Bindings)
        ensures
            b@ == Map::<Direction, ShortcutView>::empty(),
    {
        let b = Bindings { slots: [None, None, None, None, None, None, None, None] };
        assert(b@ =~= Map::<Direction, ShortcutView>::empty());
        b
    }

    /// Binds `shortcut` to `direction`, replacing what was bound there before.
    pub fn insert(&mut self, direction: Direction, shortcut: Shortcut)
        ensures
            final(self)@ == old(self)@.insert(direction, shortcut@),
    {
        let i = direction.index();
        let ghost v = shortcut@;
        self.slots[i] = Some(shortcut);
        assert(self@ =~= old(self)@.insert(direction, v));
    }

    /// Removes the binding of `direction`, if there is one.
    pub fn remove(&mut self, direction: Direction)
        ensures
            final(self)@ == old(self)@.remove(direction),
    {
        let i = direction.index();
        self.slots[i] = None;
        assert(self@ =~= old(self)@.remove(direction));
    }

    /// The shortcut bound to `direction`, if any.
    pub fn get(&self, direction: Direction) -> (found: Option<&Shortcut>)
        ensures
            found is Some <==> self@.contains_key(direction),
            found matches Some(s) ==> s@ == self@[direction],
    {
        match &self.slots[direction.index()] {
            Some(s) => Some(s),
            None => None,
        }
    }
}

impl Clone for Bindings {
    fn clone(&self) -> (copy: Self)
        ensures
            copy@ == self@,
    {
        let mut slots: [Option<Shortcut>; 8] = [None, None, None, None, None, None, None, None];
        for i in 0..8usize
            invariant
                forall|j: int|
                    0 <= j < i ==> (#[trigger] slots@[j] is Some <==> self.slots@[j] is Some),
                forall|j: int|
                    0 <= j < i && slots@[j] is Some ==> #[trigger] slots@[j]->0@
                        == self.slots@[j]->0@,
        {
            let slot = match &self.slots[i] {
                Some(s) => Some(s.clone()),
                None => None,
            };
            slots[i] = slot;
        }
        let copy = Bindings { slots };
        assert(copy@ =~= self@);
        copy
    }
}

/// Reading a direction after binding it gives the shortcut that was bound,
/// and binding one direction leaves every other direction as it was.
pub proof fn lemma_get_after_insert(
    before: Map<Direction, ShortcutView>,
    d: Direction,
    s: ShortcutView,
    other: Direction,
)
    requires
        other != d,
    ensures
        before.insert(d, s).contains_key(d),
        before.insert(d, s)[d] == s,
        before.insert(d, s).contains_key(other) == before.contains_key(other),
        before.contains_key(other) ==> before.insert(d, s)[other] == before[other],
{
}

} // verus!
