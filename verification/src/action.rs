//! The set of actions that a player can request during one frame.
//!
//! A set is held as a 64-bit word in which every named action owns one bit;
//! bits that belong to no named action may be carried along but are never
//! reported as actions.
use vstd::prelude::*;

verus! {

/// Number of named actions; they own the bits `0 .. ACTION_COUNT`.
pub const ACTION_COUNT: u64 = 25;

/// One named action.  The order of the variants is the order in which the
/// actions of a set are reported (see [`Action::flags`]).
#[derive(Clone, Copy, Debug, PartialEq, Eq, Structural)]
pub enum ActionFlag {
    OneBullet,
    TwoBullets,
    Weapon3,
    Weapon4,
    Weapon5,
    Weapon6,
    Weapon7,
    Weapon8,
    Weapon9,
    MoveForward,
    MoveBackward,
    MoveLeft,
    MoveRight,
    TurnLeft,
    TurnRight,
    IncreaseSpeed,
    DecreaseSpeed,
    MaximizeSpeed,
    MinimizeSpeed,
    Brake,
    Shoot,
    ZoomIn,
    ZoomOut,
    FullscreenOn,
    FullscreenOff,
}

/// The bit position owned by a named action.
pub open spec fn flag_index(f: ActionFlag) -> u64 {
    match f {
        ActionFlag::OneBullet => 0,
        ActionFlag::TwoBullets => 1,
        ActionFlag::Weapon3 => 2,
        ActionFlag::Weapon4 => 3,
        ActionFlag::Weapon5 => 4,
        ActionFlag::Weapon6 => 5,
        ActionFlag::Weapon7 => 6,
        ActionFlag::Weapon8 => 7,
        ActionFlag::Weapon9 => 8,
        ActionFlag::MoveForward => 9,
        ActionFlag::MoveBackward => 10,
        ActionFlag::MoveLeft => 11,
        ActionFlag::MoveRight => 12,
        ActionFlag::TurnLeft => 13,
        ActionFlag::TurnRight => 14,
        ActionFlag::IncreaseSpeed => 15,
        ActionFlag::DecreaseSpeed => 16,
        ActionFlag::MaximizeSpeed => 17,
        ActionFlag::MinimizeSpeed => 18,
        ActionFlag::Brake => 19,
        ActionFlag::Shoot => 20,
        ActionFlag::ZoomIn => 21,
        ActionFlag::ZoomOut => 22,
        ActionFlag::FullscreenOn => 23,
        ActionFlag::FullscreenOff => 24,
    }
}

/// The named action that owns bit `i` (meaningful for `i < ACTION_COUNT`).
pub open spec fn flag_at(i: u64) -> ActionFlag {
    if i == 0 { ActionFlag::OneBullet }
    else if i == 1 { ActionFlag::TwoBullets }
    else if i == 2 { ActionFlag::Weapon3 }
    else if i == 3 { ActionFlag::Weapon4 }
    else if i == 4 { ActionFlag::Weapon5 }
    else if i == 5 { ActionFlag::Weapon6 }
    else if i == 6 { ActionFlag::Weapon7 }
    else if i == 7 { ActionFlag::Weapon8 }
    else if i == 8 { ActionFlag::Weapon9 }
    else if i == 9 { ActionFlag::MoveForward }
    else if i == 10 { ActionFlag::MoveBackward }
    else if i == 11 { ActionFlag::MoveLeft }
    else if i == 12 { ActionFlag::MoveRight }
    else if i == 13 { ActionFlag::TurnLeft }
    else if i == 14 { ActionFlag::TurnRight }
    else if i == 15 { ActionFlag::IncreaseSpeed }
    else if i == 16 { ActionFlag::DecreaseSpeed }
    else if i == 17 { ActionFlag::MaximizeSpeed }
    else if i == 18 { ActionFlag::MinimizeSpeed }
    else if i == 19 { ActionFlag::Brake }
    else if i == 20 { ActionFlag::Shoot }
    else if i == 21 { ActionFlag::ZoomIn }
    else if i == 22 { ActionFlag::ZoomOut }
    else if i == 23 { ActionFlag::FullscreenOn }
    else { ActionFlag::FullscreenOff }
}

/// The single-bit mask of a named action.
pub open spec fn flag_bits(f: ActionFlag) -> u64 {
    1u64 << flag_index(f)
}

/// Whether the word `bits` holds the action `f`.
pub open spec fn has_flag(bits: u64, f: ActionFlag) -> bool {
    bits & flag_bits(f) != 0
}

/// Every bit position in `0 .. ACTION_COUNT` belongs to exactly one action.
pub proof fn lemma_flag_index_bijective()
    ensures
        forall|f: ActionFlag| #[trigger] flag_index(f) < ACTION_COUNT && flag_at(flag_index(f)) == f,
        forall|i: u64| i < ACTION_COUNT ==> #[trigger] flag_index(flag_at(i)) == i,
{
}

proof fn lemma_bit_or(a: u64, b: u64, i: u64)
    by (bit_vector)
    requires
        i < 64,
    ensures
        ((a | b) & (1u64 << i) != 0) == ((a & (1u64 << i)) != 0 || (b & (1u64 << i)) != 0),
{
}

proof fn lemma_bit_and(a: u64, b: u64, i: u64)
    by (bit_vector)
    requires
        i < 64,
    ensures
        ((a & b) & (1u64 << i) != 0) == ((a & (1u64 << i)) != 0 && (b & (1u64 << i)) != 0),
{
}

proof fn lemma_bit_single(i: u64, j: u64)
    by (bit_vector)
    requires
        i < 64,
        j < 64,
    ensures
        ((1u64 << i) & (1u64 << j) != 0) == (i == j),
{
}

proof fn lemma_bit_zero(i: u64)
    by (bit_vector)
    requires
        i < 64,
    ensures
        (0u64 & (1u64 << i)) == 0,
{
}

proof fn lemma_bit_below(a: u64, b: u64)
    by (bit_vector)
    requires
        a < 0x200_0000,
        b < 0x200_0000,
    ensures
        (a | b) < 0x200_0000,
{
}

proof fn lemma_single_below(i: u64)
    by (bit_vector)
    requires
        i < 25,
    ensures
        (1u64 << i) < 0x200_0000,
{
}

/// Membership in a union is membership in either operand.
pub proof fn lemma_has_union(a: u64, b: u64, f: ActionFlag)
    ensures
        has_flag(a | b, f) == (has_flag(a, f) || has_flag(b, f)),
{
    lemma_bit_or(a, b, flag_index(f));
}

/// Membership in an intersection is membership in both operands.
pub proof fn lemma_has_intersection(a: u64, b: u64, f: ActionFlag)
    ensures
        has_flag(a & b, f) == (has_flag(a, f) && has_flag(b, f)),
{
    lemma_bit_and(a, b, flag_index(f));
}

/// The mask of one action holds that action and no other.
pub proof fn lemma_has_single(g: ActionFlag, f: ActionFlag)
    ensures
        has_flag(flag_bits(g), f) == (g == f),
{
    lemma_bit_single(flag_index(g), flag_index(f));
    lemma_flag_index_bijective();
}

/// The empty word holds no action.
pub proof fn lemma_has_nothing(f: ActionFlag)
    ensures
        !has_flag(0, f),
{
    lemma_bit_zero(flag_index(f));
}

/// The actions held by `bits` among those owning the bits `0 .. n`, in the
/// order of their bit positions.
pub open spec fn flags_upto(bits: u64, n: nat) -> Seq<ActionFlag>
    decreases n,
{
    if n == 0 {
        Seq::empty()
    } else {
        let rest = flags_upto(bits, (n - 1) as nat);
        let f = flag_at((n - 1) as u64);
        if has_flag(bits, f) {
            rest.push(f)
        } else {
            rest
        }
    }
}

/// The named actions held by `bits`, in the order of their bit positions.
pub open spec fn contained_flags(bits: u64) -> Seq<ActionFlag> {
    flags_upto(bits, ACTION_COUNT as nat)
}

/// An action is listed among the first `n` positions exactly when the word
/// holds it and it owns one of those positions.
pub proof fn lemma_flags_upto_contains(bits: u64, n: nat, f: ActionFlag)
    requires
        n <= ACTION_COUNT,
    ensures
        flags_upto(bits, n).contains(f) <==> (has_flag(bits, f) && flag_index(f) < n),
    decreases n,
{
    lemma_flag_index_bijective();
    if n > 0 {
        lemma_flags_upto_contains(bits, (n - 1) as nat, f);
        let rest = flags_upto(bits, (n - 1) as nat);
        let g = flag_at((n - 1) as u64);
        if has_flag(bits, g) {
            assert(rest.push(g).contains(f) <==> (rest.contains(f) || f == g)) by {
                if f == g {
                    assert(rest.push(g)[rest.len() as int] == g);
                }
                if rest.contains(f) {
                    let k = choose|k: int| 0 <= k < rest.len() && rest[k] == f;
                    assert(rest.push(g)[k] == f);
                }
                if rest.push(g).contains(f) && f != g {
                    let k = choose|k: int| 0 <= k < rest.push(g).len() && rest.push(g)[k] == f;
                    assert(rest[k] == f);
                }
            }
        }
    }
}

/// The named actions listed for a word are exactly those it holds.
pub proof fn lemma_contained_flags_member(bits: u64, f: ActionFlag)
    ensures
        contained_flags(bits).contains(f) <==> has_flag(bits, f),
{
    lemma_flag_index_bijective();
    lemma_flags_upto_contains(bits, ACTION_COUNT as nat, f);
}

impl ActionFlag {
    /// The bit position that this action owns.
    pub fn index(&self) -> (r: u64)
        ensures
            r == flag_index(*self),
    {
        match self {
            ActionFlag::OneBullet => 0,
            ActionFlag::TwoBullets => 1,
            ActionFlag::Weapon3 => 2,
            ActionFlag::Weapon4 => 3,
            ActionFlag::Weapon5 => 4,
            ActionFlag::Weapon6 => 5,
            ActionFlag::Weapon7 => 6,
            ActionFlag::Weapon8 => 7,
            ActionFlag::Weapon9 => 8,
            ActionFlag::MoveForward => 9,
            ActionFlag::MoveBackward => 10,
            ActionFlag::MoveLeft => 11,
            ActionFlag::MoveRight => 12,
            ActionFlag::TurnLeft => 13,
            ActionFlag::TurnRight => 14,
            ActionFlag::IncreaseSpeed => 15,
            ActionFlag::DecreaseSpeed => 16,
            ActionFlag::MaximizeSpeed => 17,
            ActionFlag::MinimizeSpeed => 18,
            ActionFlag::Brake => 19,
            ActionFlag::Shoot => 20,
            ActionFlag::ZoomIn => 21,
            ActionFlag::ZoomOut => 22,
            ActionFlag::FullscreenOn => 23,
            ActionFlag::FullscreenOff => 24,
        }
    }

    /// The action that owns bit `i`.
    pub fn from_index(i: u64) -> (r: ActionFlag)
        requires
            i < ACTION_COUNT,
        ensures
            r == flag_at(i),
            flag_index(r) == i,
    {
        proof {
            lemma_flag_index_bijective();
        }
        if i == 0 { ActionFlag::OneBullet }
        else if i == 1 { ActionFlag::TwoBullets }
        else if i == 2 { ActionFlag::Weapon3 }
        else if i == 3 { ActionFlag::Weapon4 }
        else if i == 4 { ActionFlag::Weapon5 }
        else if i == 5 { ActionFlag::Weapon6 }
        else if i == 6 { ActionFlag::Weapon7 }
        else if i == 7 { ActionFlag::Weapon8 }
        else if i == 8 { ActionFlag::Weapon9 }
        else if i == 9 { ActionFlag::MoveForward }
        else if i == 10 { ActionFlag::MoveBackward }
        else if i == 11 { ActionFlag::MoveLeft }
        else if i == 12 { ActionFlag::MoveRight }
        else if i == 13 { ActionFlag::TurnLeft }
        else if i == 14 { ActionFlag::TurnRight }
        else if i == 15 { ActionFlag::IncreaseSpeed }
        else if i == 16 { ActionFlag::DecreaseSpeed }
        else if i == 17 { ActionFlag::MaximizeSpeed }
        else if i == 18 { ActionFlag::MinimizeSpeed }
        else if i == 19 { ActionFlag::Brake }
        else if i == 20 { ActionFlag::Shoot }
        else if i == 21 { ActionFlag::ZoomIn }
        else if i == 22 { ActionFlag::ZoomOut }
        else if i == 23 { ActionFlag::FullscreenOn }
        else { ActionFlag::FullscreenOff }
    }

    /// The single-bit mask of this action.
    pub fn bits(&self) -> (r: u64)
        ensures
            r == flag_bits(*self),
    {
        let i = self.index();
        1u64 << i
    }
}

/// A set of actions.
#[derive(Clone, Copy, Debug, PartialEq, Eq, Structural)]
pub struct Action {
    bits: u64,
}

impl View for Action {
    type V = u64;

    open spec fn view(&self) -> u64 {
        self.spec_bits()
    }
}

impl Action {
    /// The word that holds the set.
    pub closed spec fn spec_bits(&self) -> u64 {
        self.bits
    }

    /// Whether the set holds `f`.
    #[verifier::inline]
    pub open spec fn holds(&self, f: ActionFlag) -> bool {
        has_flag(self@, f)
    }

    /// Whether the set holds named actions only.
    pub open spec fn named_only(&self) -> bool {
        self@ < 0x200_0000
    }

    /// The empty set.
    pub fn nothing() -> (r: Action)
        ensures
            r@ == 0,
            r.named_only(),
            forall|f: ActionFlag| !#[trigger] r.holds(f),
    {
        proof {
            assert forall|f: ActionFlag| !#[trigger] has_flag(0, f) by {
                lemma_has_nothing(f);
            }
        }
        Action { bits: 0 }
    }

    /// The set that holds `f` alone.
    pub fn from_flag(f: ActionFlag) -> (r: Action)
        ensures
            r@ == flag_bits(f),
            r.named_only(),
            forall|g: ActionFlag| #[trigger] r.holds(g) == (g == f),
    {
        proof {
            lemma_flag_index_bijective();
            lemma_single_below(flag_index(f));
            assert forall|g: ActionFlag| #[trigger] has_flag(flag_bits(f), g) == (g == f) by {
                lemma_has_single(f, g);
            }
        }
        Action { bits: f.bits() }
    }

    /// The set held by a word, unnamed bits included.
    pub fn from_bits_retain(bits: u64) -> (r: Action)
        ensures
            r@ == bits,
    {
        Action { bits }
    }

    /// The word that holds the set.
    pub fn bits(&self) -> (r: u64)
        ensures
            r == self@,
    {
        self.bits
    }

    /// Whether the set holds `f`.
    pub fn contains(&self, f: ActionFlag) -> (r: bool)
        ensures
            r == self.holds(f),
    {
        self.bits & f.bits() != 0
    }

    /// Whether the set holds nothing at all, unnamed bits included.
    pub fn is_empty(&self) -> (r: bool)
        ensures
            r == (self@ == 0),
    {
        self.bits == 0
    }

    /// Adds `f` to the set.
    pub fn insert(&mut self, f: ActionFlag)
        ensures
            final(self)@ == old(self)@ | flag_bits(f),
            forall|g: ActionFlag| #[trigger] final(self).holds(g) == (old(self).holds(g) || g == f),
            old(self).named_only() ==> final(self).named_only(),
    {
        let ghost before = self.bits;
        self.bits = self.bits | f.bits();
        proof {
            lemma_flag_index_bijective();
            lemma_single_below(flag_index(f));
            if before < 0x200_0000 {
                lemma_bit_below(before, flag_bits(f));
            }
            assert forall|g: ActionFlag| #[trigger] has_flag(before | flag_bits(f), g) == (has_flag(before, g) || g == f) by {
                lemma_has_union(before, flag_bits(f), g);
                lemma_has_single(f, g);
            }
        }
    }

    /// The set of the actions held by either set.
    pub fn union(&self, other: &Action) -> (r: Action)
        ensures
            r@ == self@ | other@,
            forall|g: ActionFlag| #[trigger] r.holds(g) == (self.holds(g) || other.holds(g)),
            self.named_only() && other.named_only() ==> r.named_only(),
    {
        proof {
            if self.bits < 0x200_0000 && other.bits < 0x200_0000 {
                lemma_bit_below(self.bits, other.bits);
            }
            assert forall|g: ActionFlag| #[trigger] has_flag(self.bits | other.bits, g) == (has_flag(self.bits, g) || has_flag(other.bits, g)) by {
                lemma_has_union(self.bits, other.bits, g);
            }
        }
        Action { bits: self.bits | other.bits }
    }

    /// The named actions of the set, each once, in the order of their bit
    /// positions (the order of the variants of [`ActionFlag`]).  Unnamed bits
    /// are not reported.
    pub fn flags(&self) -> (r: Vec<ActionFlag>)
        ensures
            r@ == contained_flags(self@),
    {
        let mut v: Vec<ActionFlag> = Vec::new();
        let mut i: u64 = 0;
        while i < ACTION_COUNT
            invariant
                i <= ACTION_COUNT,
                v@ == flags_upto(self@, i as nat),
            decreases ACTION_COUNT - i,
        {
            let f = ActionFlag::from_index(i);
            if self.contains(f) {
                v.push(f);
            }
            i = i + 1;
        }
        v
    }

    /// The set of the actions held by both sets.
    pub fn intersection(&self, other: &Action) -> (r: Action)
        ensures
            r@ == self@ & other@,
            forall|g: ActionFlag| #[trigger] r.holds(g) == (self.holds(g) && other.holds(g)),
    {
        proof {
            assert forall|g: ActionFlag| #[trigger] has_flag(self.bits & other.bits, g) == (has_flag(self.bits, g) && has_flag(other.bits, g)) by {
                lemma_has_intersection(self.bits, other.bits, g);
            }
        }
        Action { bits: self.bits & other.bits }
    }
}

} // verus!
