use vstd::prelude::*;

verus! {

/// One of the eight compass directions a gesture can point in.
/// Screen "up" is North.
#[derive(Debug, Clone, Copy, PartialEq, Eq, Hash, Structural)]
pub enum Direction {
    N,
    NE,
    E,
    SE,
    S,
    SW,
    W,
    NW,
}

/// Position of a direction in the clockwise order that starts at North.
pub open spec fn clockwise_index(d: Direction) -> int {
    match d {
        Direction::N => 0,
        Direction::NE => 1,
        Direction::E => 2,
        Direction::SE => 3,
        Direction::S => 4,
        Direction::SW => 5,
        Direction::W => 6,
        Direction::NW => 7,
    }
}

/// The human-readable name of a direction.
pub open spec fn label_text(d: Direction) -> Seq<char> {
    match d {
        Direction::N => "Up"@,
        Direction::NE => "Up-Right"@,
        Direction::E => "Right"@,
        Direction::SE => "Down-Right"@,
        Direction::S => "Down"@,
        Direction::SW => "Down-Left"@,
        Direction::W => "Left"@,
        Direction::NW => "Up-Left"@,
    }
}

/// The name a direction is printed with.
pub open spec fn name_text(d: Direction) -> Seq<char> {
    match d {
        Direction::N => "N"@,
        Direction::NE => "NE"@,
        Direction::E => "E"@,
        Direction::SE => "SE"@,
        Direction::S => "S"@,
        Direction::SW => "SW"@,
        Direction::W => "W"@,
        Direction::NW => "NW"@,
    }
}

impl Direction {
    /// All eight compass directions in clockwise order starting from North.
    pub const ALL: [Direction; 8] = [
        Direction::N,
        Direction::NE,
        Direction::E,
        Direction::SE,
        Direction::S,
        Direction::SW,
        Direction::W,
        Direction::NW,
    ];

    /// Position of this direction in `Direction::ALL`.
    pub fn index(&self) -> (i: usize)
        ensures
            i == clockwise_index(*self),
    {
        match self {
            Direction::N => 0,
            Direction::NE => 1,
            Direction::E => 2,
            Direction::SE => 3,
            Direction::S => 4,
            Direction::SW => 5,
            Direction::W => 6,
            Direction::NW => 7,
        }
    }

    /// The direction printed as its name, as it appears in log messages.
    pub fn to_string(&self) -> (text: String)
        ensures
            text@ == name_text(*self),
    {
        let name = match self {
            Direction::N => "N",
            Direction::NE => "NE",
            Direction::E => "E",
            Direction::SE => "SE",
            Direction::S => "S",
            Direction::SW => "SW",
            Direction::W => "W",
            Direction::NW => "NW",
        };
        name.to_owned()
    }

    /// Human-readable label for the direction.
    pub fn label(&self) -> (text: &'static str)
        ensures
            text@ == label_text(*self),
    {
        match self {
            Direction::N => "Up",
            Direction::NE => "Up-Right",
            Direction::E => "Right",
            Direction::SE => "Down-Right",
            Direction::S => "Down",
            Direction::SW => "Down-Left",
            Direction::W => "Left",
            Direction::NW => "Up-Left",
        }
    }
}

/// `Direction::ALL` lists every direction exactly once, each at its clockwise position.
pub proof fn lemma_all_in_clockwise_order()
    ensures
        Direction::ALL@.len() == 8,
        forall|i: int| 0 <= i < 8 ==> clockwise_index(#[trigger] Direction::ALL@[i]) == i,
        forall|d: Direction| Direction::ALL@[clockwise_index(d)] == d,
{
}

/// Different directions have different labels.
pub proof fn lemma_labels_distinct(d1: Direction, d2: Direction)
    requires
        d1 != d2,
    ensures
        label_text(d1) != label_text(d2),
{
    reveal_strlit("Up");
    reveal_strlit("Up-Right");
    reveal_strlit("Right");
    reveal_strlit("Down-Right");
    reveal_strlit("Down");
    reveal_strlit("Down-Left");
    reveal_strlit("Left");
    reveal_strlit("Up-Left");
    if label_text(d1) == label_text(d2) {
        assert(label_text(d1).len() == label_text(d2).len());
        assert(label_text(d1)[0] == label_text(d2)[0]);
        assert(label_text(d1)[label_text(d1).len() - 1] == label_text(d2)[label_text(d2).len() - 1]);
    }
}

/// Directions run clockwise from North in `Direction::ALL`, and each is labelled by where it
/// points on screen: N "Up", NE "Up-Right", E "Right", SE "Down-Right", S "Down",
/// SW "Down-Left", W "Left", NW "Up-Left"; each prints as its compass name.
pub proof fn lemma_direction_table()
    ensures
        Direction::ALL@ == seq![
            Direction::N,
            Direction::NE,
            Direction::E,
            Direction::SE,
            Direction::S,
            Direction::SW,
            Direction::W,
            Direction::NW,
        ],
        label_text(Direction::N) == "Up"@,
        label_text(Direction::NE) == "Up-Right"@,
        label_text(Direction::E) == "Right"@,
        label_text(Direction::SE) == "Down-Right"@,
        label_text(Direction::S) == "Down"@,
        label_text(Direction::SW) == "Down-Left"@,
        label_text(Direction::W) == "Left"@,
        label_text(Direction::NW) == "Up-Left"@,
        name_text(Direction::N) == "N"@,
        name_text(Direction::NE) == "NE"@,
        name_text(Direction::E) == "E"@,
        name_text(Direction::SE) == "SE"@,
        name_text(Direction::S) == "S"@,
        name_text(Direction::SW) == "SW"@,
        name_text(Direction::W) == "W"@,
        name_text(Direction::NW) == "NW"@,
{
    assert(Direction::ALL@ =~= seq![
        Direction::N,
        Direction::NE,
        Direction::E,
        Direction::SE,
        Direction::S,
        Direction::SW,
        Direction::W,
        Direction::NW,
    ]);
}

} // verus!
