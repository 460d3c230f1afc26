//! The values players pick, the two cyclic orderings over them, and the
//! pairing of actions with elements that grants double damage.

use crate::config::{ACTION_FACES, ELEMENT_FACES};
use crate::helper::roll_below;
use std::cmp::Ordering;
use vstd::prelude::*;
use vstd::std_specs::cmp::PartialOrdSpecImpl;

verus! {

/// One of the two players of a match.
#[derive(Debug, Eq, PartialEq, Copy, Clone, Structural)]
pub enum Player {
    One,
    Two,
}

impl Player {
    /// The other player.
    pub open spec fn opponent_spec(self) -> Player {
        match self {
            Player::One => Player::Two,
            Player::Two => Player::One,
        }
    }

    /// The other player.
    pub fn opponent(self) -> (r: Player)
        ensures
            r == self.opponent_spec(),
    {
        match self {
            Player::One => Player::Two,
            Player::Two => Player::One,
        }
    }
}

impl Default for Player {
    fn default() -> (r: Player)
        ensures
            r == Player::One,
    {
        Player::One
    }
}

/// Which of the two picks of an exchange is meant.
#[derive(Debug, Eq, PartialEq, Copy, Clone, Structural)]
pub enum Dimension {
    Action,
    Element,
}

/// How an exchange ended.
#[derive(Debug, Eq, PartialEq, Copy, Clone, Hash, Structural)]
pub enum Outcome {
    PlayerOne,
    PlayerTwo,
    Draw,
}

/// What a player does in an exchange.
#[derive(Debug, Eq, PartialEq, Copy, Clone, Structural)]
pub enum Action {
    Toilet,
    Underwear,
    Hand,
}

/// The element a player fights under.
#[derive(Debug, Eq, PartialEq, Copy, Clone, Structural)]
pub enum Element {
    Fire,
    Water,
    Grass,
}

/// A player's pick for one dimension of an exchange. `Unset` is the state
/// before anything was picked.
#[derive(Debug, Eq, PartialEq, Copy, Clone, Structural)]
pub enum Choice {
    Unset,
    Action(Action),
    Element(Element),
}

impl Default for Action {
    fn default() -> (r: Action)
        ensures
            r == Action::Toilet,
    {
        Action::Toilet
    }
}

impl Default for Element {
    fn default() -> (r: Element)
        ensures
            r == Element::Fire,
    {
        Element::Fire
    }
}

impl Default for Choice {
    fn default() -> (r: Choice)
        ensures
            r == Choice::Unset,
    {
        Choice::Unset
    }
}

impl Action {
    /// The cycle of the actions: Toilet beats Hand, Hand beats Underwear,
    /// Underwear beats Toilet, and nothing else beats anything.
    pub open spec fn beats(self, other: Action) -> bool {
        ||| self == Action::Toilet && other == Action::Hand
        ||| self == Action::Hand && other == Action::Underwear
        ||| self == Action::Underwear && other == Action::Toilet
    }

    /// How `self` stands against `other`: equal to itself, greater than the
    /// action it beats, less than the action that beats it.
    pub open spec fn compare_spec(self, other: Action) -> Ordering {
        if self == other {
            Ordering::Equal
        } else if self.beats(other) {
            Ordering::Greater
        } else {
            Ordering::Less
        }
    }

    /// Compares two actions along the cycle, pair by pair.
    pub fn compare(self, other: Action) -> (r: Ordering)
        ensures
            r == self.compare_spec(other),
    {
        match (self, other) {
            (Action::Toilet, Action::Toilet) => Ordering::Equal,
            (Action::Underwear, Action::Underwear) => Ordering::Equal,
            (Action::Hand, Action::Hand) => Ordering::Equal,
            (Action::Toilet, Action::Hand) => Ordering::Greater,
            (Action::Hand, Action::Toilet) => Ordering::Less,
            (Action::Hand, Action::Underwear) => Ordering::Greater,
            (Action::Underwear, Action::Hand) => Ordering::Less,
            (Action::Underwear, Action::Toilet) => Ordering::Greater,
            (Action::Toilet, Action::Underwear) => Ordering::Less,
        }
    }
}

impl PartialOrd for Action {
    fn partial_cmp(&self, other: &Self) -> (r: Option<Ordering>) {
        Some(self.compare(*other))
    }
}

impl PartialOrdSpecImpl for Action {
    open spec fn obeys_partial_cmp_spec() -> bool {
        true
    }

    open spec fn partial_cmp_spec(&self, other: &Self) -> Option<Ordering> {
        Some(self.compare_spec(*other))
    }
}

impl Element {
    /// The cycle of the elements: Water beats Fire, Fire beats Grass, Grass
    /// beats Water, and nothing else beats anything.
    pub open spec fn beats(self, other: Element) -> bool {
        ||| self == Element::Water && other == Element::Fire
        ||| self == Element::Fire && other == Element::Grass
        ||| self == Element::Grass && other == Element::Water
    }

    /// How `self` stands against `other`: equal to itself, greater than the
    /// element it beats, less than the element that beats it.
    pub open spec fn compare_spec(self, other: Element) -> Ordering {
        if self == other {
            Ordering::Equal
        } else if self.beats(other) {
            Ordering::Greater
        } else {
            Ordering::Less
        }
    }

    /// Compares two elements along the cycle, pair by pair.
    pub fn compare(self, other: Element) -> (r: Ordering)
        ensures
            r == self.compare_spec(other),
    {
        match (self, other) {
            (Element::Fire, Element::Fire) => Ordering::Equal,
            (Element::Water, Element::Water) => Ordering::Equal,
            (Element::Grass, Element::Grass) => Ordering::Equal,
            (Element::Fire, Element::Water) => Ordering::Less,
            (Element::Fire, Element::Grass) => Ordering::Greater,
            (Element::Water, Element::Fire) => Ordering::Greater,
            (Element::Water, Element::Grass) => Ordering::Less,
            (Element::Grass, Element::Fire) => Ordering::Less,
            (Element::Grass, Element::Water) => Ordering::Greater,
        }
    }
}

impl PartialOrd for Element {
    fn partial_cmp(&self, other: &Self) -> (r: Option<Ordering>) {
        Some(self.compare(*other))
    }
}

impl PartialOrdSpecImpl for Element {
    open spec fn obeys_partial_cmp_spec() -> bool {
        true
    }

    open spec fn partial_cmp_spec(&self, other: &Self) -> Option<Ordering> {
        Some(self.compare_spec(*other))
    }
}

impl Choice {
    /// How `self` stands against `other`. No pick is less than any pick;
    /// two actions or two elements go by their cycle; an action against an
    /// element counts as equal.
    pub open spec fn compare_spec(self, other: Choice) -> Ordering {
        match (self, other) {
            (Choice::Unset, Choice::Unset) => Ordering::Equal,
            (Choice::Unset, _) => Ordering::Less,
            (_, Choice::Unset) => Ordering::Greater,
            (Choice::Action(a), Choice::Action(b)) => a.compare_spec(b),
            (Choice::Element(a), Choice::Element(b)) => a.compare_spec(b),
            _ => Ordering::Equal,
        }
    }

    /// Compares two picks.
    pub fn compare(self, other: Choice) -> (r: Ordering)
        ensures
            r == self.compare_spec(other),
    {
        match (self, other) {
            (Choice::Unset, Choice::Unset) => Ordering::Equal,
            (Choice::Unset, _) => Ordering::Less,
            (_, Choice::Unset) => Ordering::Greater,
            (Choice::Action(a), Choice::Action(b)) => a.compare(b),
            (Choice::Element(a), Choice::Element(b)) => a.compare(b),
            _ => Ordering::Equal,
        }
    }

    /// The pick of the other kind that is paired with `choice`: Hand with
    /// Fire, Toilet with Water, Underwear with Grass; `Unset` with `Unset`.
    pub open spec fn complement_spec(choice: Choice) -> Choice {
        match choice {
            Choice::Action(Action::Hand) => Choice::Element(Element::Fire),
            Choice::Action(Action::Toilet) => Choice::Element(Element::Water),
            Choice::Action(Action::Underwear) => Choice::Element(Element::Grass),
            Choice::Element(Element::Fire) => Choice::Action(Action::Hand),
            Choice::Element(Element::Water) => Choice::Action(Action::Toilet),
            Choice::Element(Element::Grass) => Choice::Action(Action::Underwear),
            Choice::Unset => Choice::Unset,
        }
    }

    /// The pick of the other kind that is paired with `choice`.
    pub fn get_complement(choice: &Choice) -> (r: Self)
        ensures
            r == Choice::complement_spec(*choice),
    {
        match *choice {
            Choice::Action(Action::Hand) => Choice::Element(Element::Fire),
            Choice::Action(Action::Toilet) => Choice::Element(Element::Water),
            Choice::Action(Action::Underwear) => Choice::Element(Element::Grass),
            Choice::Element(Element::Fire) => Choice::Action(Action::Hand),
            Choice::Element(Element::Water) => Choice::Action(Action::Toilet),
            Choice::Element(Element::Grass) => Choice::Action(Action::Underwear),
            _ => Choice::Unset,
        }
    }
}

impl PartialOrd for Choice {
    fn partial_cmp(&self, other: &Self) -> (r: Option<Ordering>) {
        Some(self.compare(*other))
    }
}

impl PartialOrdSpecImpl for Choice {
    open spec fn obeys_partial_cmp_spec() -> bool {
        true
    }

    open spec fn partial_cmp_spec(&self, other: &Self) -> Option<Ordering> {
        Some(self.compare_spec(*other))
    }
}

impl Action {
    /// The action's name.
    pub open spec fn name(self) -> Seq<char> {
        match self {
            Action::Toilet => "Toilet"@,
            Action::Underwear => "Underwear"@,
            Action::Hand => "Hand"@,
        }
    }

    /// The action's name, as text.
    pub fn to_string(&self) -> (r: String)
        ensures
            r@ == self.name(),
    {
        match self {
            Action::Toilet => "Toilet".to_owned(),
            Action::Underwear => "Underwear".to_owned(),
            Action::Hand => "Hand".to_owned(),
        }
    }

    /// The action that a four-way roll selects for a player who fights
    /// under `element`: the first two faces give the action paired with the
    /// element, the other two one each of the remaining actions. Without an
    /// element it is Hand.
    pub open spec fn weighted_spec(element: Choice, roll: u32) -> Action {
        match element {
            Choice::Element(Element::Water) => if roll <= 1 {
                Action::Toilet
            } else if roll == 2 {
                Action::Underwear
            } else {
                Action::Hand
            },
            Choice::Element(Element::Fire) => if roll <= 1 {
                Action::Hand
            } else if roll == 2 {
                Action::Underwear
            } else {
                Action::Toilet
            },
            Choice::Element(Element::Grass) => if roll <= 1 {
                Action::Underwear
            } else if roll == 2 {
                Action::Toilet
            } else {
                Action::Hand
            },
            _ => Action::Hand,
        }
    }

    /// The action that `roll` selects for a player who fights under
    /// `element`.
    pub fn weighted_action(element: &Choice, roll: u32) -> (r: Action)
        ensures
            r == Action::weighted_spec(*element, roll),
    {
        match element {
            Choice::Element(Element::Water) => match roll {
                0 => Action::Toilet,
                1 => Action::Toilet,
                2 => Action::Underwear,
                _ => Action::Hand,
            },
            Choice::Element(Element::Fire) => match roll {
                0 => Action::Hand,
                1 => Action::Hand,
                2 => Action::Underwear,
                _ => Action::Toilet,
            },
            Choice::Element(Element::Grass) => match roll {
                0 => Action::Underwear,
                1 => Action::Underwear,
                2 => Action::Toilet,
                _ => Action::Hand,
            },
            _ => Action::Hand,
        }
    }

    /// An action picked by chance for a player who fights under `element`:
    /// what one of the four faces of the roll selects.
    pub fn weighted(element: &Choice) -> (r: Self)
        ensures
            exists|roll: u32| roll < ACTION_FACES && r == Action::weighted_spec(*element, roll),
    {
        let roll: u32 = roll_below(ACTION_FACES);
        Action::weighted_action(element, roll)
    }
}

impl Element {
    /// The element's name.
    pub open spec fn name(self) -> Seq<char> {
        match self {
            Element::Fire => "Fire"@,
            Element::Water => "Water"@,
            Element::Grass => "Grass"@,
        }
    }

    /// The element's name, as text.
    pub fn to_string(&self) -> (r: String)
        ensures
            r@ == self.name(),
    {
        match self {
            Element::Fire => "Fire".to_owned(),
            Element::Water => "Water".to_owned(),
            Element::Grass => "Grass".to_owned(),
        }
    }

    /// The element that a three-way roll selects.
    pub open spec fn from_roll_spec(roll: u32) -> Element {
        if roll == 0 {
            Element::Fire
        } else if roll == 1 {
            Element::Water
        } else {
            Element::Grass
        }
    }

    /// The element that `roll` selects.
    pub fn from_roll(roll: u32) -> (r: Element)
        ensures
            r == Element::from_roll_spec(roll),
    {
        match roll {
            0 => Element::Fire,
            1 => Element::Water,
            _ => Element::Grass,
        }
    }

    /// An element picked by chance: what one of the three faces of the roll
    /// selects.
    pub fn random() -> (r: Self)
        ensures
            exists|roll: u32| roll < ELEMENT_FACES && r == Element::from_roll_spec(roll),
    {
        let roll: u32 = roll_below(ELEMENT_FACES);
        Element::from_roll(roll)
    }
}

impl Choice {
    /// The pick's name; "None" where nothing was picked.
    pub open spec fn name(self) -> Seq<char> {
        match self {
            Choice::Unset => "None"@,
            Choice::Action(action) => action.name(),
            Choice::Element(element) => element.name(),
        }
    }

    /// The pick's name, as text.
    pub fn to_string(&self) -> (r: String)
        ensures
            r@ == self.name(),
    {
        match self {
            Choice::Unset => "None".to_owned(),
            Choice::Action(action) => action.to_string(),
            Choice::Element(element) => element.to_string(),
        }
    }

    /// Whether the pick is of the kind that `dimension` asks for.
    pub open spec fn fits_spec(self, dimension: Dimension) -> bool {
        match (self, dimension) {
            (Choice::Action(_), Dimension::Action) => true,
            (Choice::Element(_), Dimension::Element) => true,
            _ => false,
        }
    }

    /// Whether the pick is of the kind that `dimension` asks for.
    pub fn fits(&self, dimension: Dimension) -> (r: bool)
        ensures
            r == self.fits_spec(dimension),
    {
        match (self, dimension) {
            (Choice::Action(_), Dimension::Action) => true,
            (Choice::Element(_), Dimension::Element) => true,
            _ => false,
        }
    }
}

/// Both orderings are rock-paper-scissors cycles: every action and every
/// element equals itself, beats exactly one other and loses to the third,
/// and whenever one side is greater the other side is less.
pub proof fn lemma_orderings_are_cycles()
    ensures
        Action::Toilet.compare_spec(Action::Hand) == Ordering::Greater,
        Action::Hand.compare_spec(Action::Underwear) == Ordering::Greater,
        Action::Underwear.compare_spec(Action::Toilet) == Ordering::Greater,
        Element::Water.compare_spec(Element::Fire) == Ordering::Greater,
        Element::Fire.compare_spec(Element::Grass) == Ordering::Greater,
        Element::Grass.compare_spec(Element::Water) == Ordering::Greater,
        forall|a: Action| #[trigger] a.compare_spec(a) == Ordering::Equal,
        forall|e: Element| #[trigger] e.compare_spec(e) == Ordering::Equal,
        forall|a: Action, b: Action|
            (#[trigger] a.compare_spec(b) == Ordering::Greater) <==> (b.compare_spec(a)
                == Ordering::Less),
        forall|e: Element, f: Element|
            (#[trigger] e.compare_spec(f) == Ordering::Greater) <==> (f.compare_spec(e)
                == Ordering::Less),
        forall|a: Action, b: Action| (#[trigger] a.compare_spec(b) == Ordering::Equal) <==> a == b,
        forall|e: Element, f: Element|
            (#[trigger] e.compare_spec(f) == Ordering::Equal) <==> e == f,
{
}

/// Neither ordering is transitive: around the cycle each beats the next,
/// yet the first loses to the last.
pub proof fn lemma_orderings_are_not_transitive(a: Action, b: Action, c: Action)
    requires
        a.compare_spec(b) == Ordering::Greater,
        b.compare_spec(c) == Ordering::Greater,
    ensures
        a.compare_spec(c) == Ordering::Less,
{
}

/// Nothing picked never wins: it is less than every pick and equal only to
/// itself.
pub proof fn lemma_unset_never_wins(c: Choice)
    ensures
        Choice::Unset.compare_spec(c) != Ordering::Greater,
        c != Choice::Unset ==> Choice::Unset.compare_spec(c) == Ordering::Less,
        c != Choice::Unset ==> c.compare_spec(Choice::Unset) == Ordering::Greater,
{
}

/// The pairing of actions and elements is its own inverse, and it turns
/// every action into an element and every element into an action.
pub proof fn lemma_complement_is_involution(c: Choice)
    ensures
        Choice::complement_spec(Choice::complement_spec(c)) == c,
        Choice::complement_spec(Choice::Unset) == Choice::Unset,
        c is Action <==> Choice::complement_spec(c) is Element,
        c is Element <==> Choice::complement_spec(c) is Action,
{
}

/// Two of the four faces of the weighted roll give the action paired with
/// the element; the other two give the two remaining actions, one each.
pub proof fn lemma_weighted_favours_complement(e: Element)
    ensures
        forall|roll: u32|
            roll < 2 ==> Choice::Action(#[trigger] Action::weighted_spec(Choice::Element(e), roll))
                == Choice::complement_spec(Choice::Element(e)),
        Action::weighted_spec(Choice::Element(e), 2) != Action::weighted_spec(
            Choice::Element(e),
            0,
        ),
        Action::weighted_spec(Choice::Element(e), 3) != Action::weighted_spec(
            Choice::Element(e),
            0,
        ),
        Action::weighted_spec(Choice::Element(e), 2) != Action::weighted_spec(
            Choice::Element(e),
            3,
        ),
{
}


} // verus!
