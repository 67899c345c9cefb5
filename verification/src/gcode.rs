//! What the board makes of the commands in a g-code line: which commands move,
//! the distance mode, and the axis targets that a move names.
//!
//! Coordinates are carried as the bit patterns of IEEE 754 single-precision
//! numbers, exactly as the g-code parser produced them.

use vstd::prelude::*;

verus! {

/// Axis targets gathered from the g-code, each the bit pattern of a single-precision
/// number. `None` where no target was given.
#[derive(Debug, Clone, Copy, PartialEq, Eq, Structural)]
pub struct PendingMove {
    pub pending_move_zed: Option<u32>,
    pub pending_move_shoulder: Option<u32>,
    pub pending_move_elbow: Option<u32>,
    pub pending_move_yaw: Option<u32>,
    pub pending_move_wrist_pitch: Option<u32>,
    pub pending_move_wrist_roll: Option<u32>,
    pub pending_move_grip: Option<u32>,
}

/// A move with no targets.
pub open spec fn no_move() -> PendingMove {
    PendingMove {
        pending_move_zed: None,
        pending_move_shoulder: None,
        pending_move_elbow: None,
        pending_move_yaw: None,
        pending_move_wrist_pitch: None,
        pending_move_wrist_roll: None,
        pending_move_grip: None,
    }
}

impl PendingMove {
    /// A move with no targets.
    pub fn new() -> (m: Self)
        ensures
            m == no_move(),
    {
        PendingMove {
            pending_move_zed: None,
            pending_move_shoulder: None,
            pending_move_elbow: None,
            pending_move_yaw: None,
            pending_move_wrist_pitch: None,
            pending_move_wrist_roll: None,
            pending_move_grip: None,
        }
    }
}

impl Default for PendingMove {
    fn default() -> (m: Self)
        ensures
            m == no_move(),
    {
        Self::new()
    }
}

/// The value of a command argument.
#[derive(Debug, Clone, Copy, PartialEq, Eq, Structural)]
pub enum ArgumentValue {
    /// A number, as the bit pattern of a single-precision number.
    Literal(u32),
    /// A variable reference, which is not evaluated.
    Variable,
}

/// Whether the arguments of the G command with major number `major` describe a move:
/// G0 and G1, and G91, whose axis words (as in `G91Z1F100`) are read as its own.
pub open spec fn is_move_code(major: u32) -> bool {
    major == 0 || major == 1 || major == 91
}

/// The distance mode after a G command with major number `major`: G91 selects
/// incremental, G90 absolute, and every other command keeps the mode.
pub open spec fn mode_after(incremental: bool, major: u32) -> bool {
    if major == 91 {
        true
    } else if major == 90 {
        false
    } else {
        incremental
    }
}

/// The pending move after an argument: within a move, a literal for a joint's
/// letter (either case) sets that joint's target: `Z` the vertical slideway, `A` the
/// shoulder, `B` the elbow, `C` the wrist yaw, `U` the wrist pitch, `V` the wrist
/// roll and `W` the gripper jaw.
pub open spec fn move_after_argument(
    m: PendingMove,
    is_move: bool,
    letter: char,
    value: ArgumentValue,
) -> PendingMove {
    match value {
        ArgumentValue::Literal(v) => if !is_move {
            m
        } else if letter == 'Z' || letter == 'z' {
            PendingMove { pending_move_zed: Some(v), ..m }
        } else if letter == 'A' || letter == 'a' {
            PendingMove { pending_move_shoulder: Some(v), ..m }
        } else if letter == 'B' || letter == 'b' {
            PendingMove { pending_move_elbow: Some(v), ..m }
        } else if letter == 'C' || letter == 'c' {
            PendingMove { pending_move_yaw: Some(v), ..m }
        } else if letter == 'U' || letter == 'u' {
            PendingMove { pending_move_wrist_pitch: Some(v), ..m }
        } else if letter == 'V' || letter == 'v' {
            PendingMove { pending_move_wrist_roll: Some(v), ..m }
        } else if letter == 'W' || letter == 'w' {
            PendingMove { pending_move_grip: Some(v), ..m }
        } else {
            m
        },
        ArgumentValue::Variable => m,
    }
}

/// The distance mode after a sequence of G commands, given by their major numbers,
/// starting in mode `incremental`.
pub open spec fn mode_after_codes(incremental: bool, codes: Seq<u32>) -> bool
    decreases codes.len(),
{
    if codes.len() == 0 {
        incremental
    } else {
        mode_after(mode_after_codes(incremental, codes.drop_last()), codes.last())
    }
}

/// Whether a G command with major number `major` selects a distance mode.
pub open spec fn is_mode_code(major: u32) -> bool {
    major == 90 || major == 91
}

/// After any sequence of G commands, the distance mode is incremental exactly when
/// the last G90 or G91 among them was G91; with neither among them it is the mode
/// that the sequence started in.
pub proof fn law_mode_is_last_mode_code(incremental: bool, codes: Seq<u32>)
    ensures
        forall|i: int|
            0 <= i < codes.len() && is_mode_code(#[trigger] codes[i]) && (forall|j: int|
                i < j < codes.len() ==> !is_mode_code(codes[j])) ==> mode_after_codes(
                incremental,
                codes,
            ) == (codes[i] == 91),
        (forall|i: int| 0 <= i < codes.len() ==> !is_mode_code(#[trigger] codes[i]))
            ==> mode_after_codes(incremental, codes) == incremental,
    decreases codes.len(),
{
    if codes.len() > 0 {
        let rest = codes.drop_last();
        law_mode_is_last_mode_code(incremental, rest);
        assert forall|i: int|
            0 <= i < codes.len() && is_mode_code(#[trigger] codes[i]) && (forall|j: int|
                i < j < codes.len() ==> !is_mode_code(codes[j])) implies mode_after_codes(
            incremental,
            codes,
        ) == (codes[i] == 91) by {
            if i < codes.len() - 1 {
                assert(!is_mode_code(codes[codes.len() - 1]));
                assert(rest[i] == codes[i]);
                assert forall|j: int| i < j < rest.len() implies !is_mode_code(rest[j]) by {
                    assert(rest[j] == codes[j]);
                }
            }
        }
        if forall|i: int| 0 <= i < codes.len() ==> !is_mode_code(#[trigger] codes[i]) {
            assert(!is_mode_code(codes[codes.len() - 1]));
            assert forall|i: int| 0 <= i < rest.len() implies !is_mode_code(#[trigger] rest[i]) by {
                assert(rest[i] == codes[i]);
            }
        }
    }
}

/// The state that the commands of g-code act on.
pub struct GcodeState {
    /// Axis targets gathered so far.
    pub pending_move: PendingMove,
    /// True when the most recently seen distance-mode command is G91 (incremental).
    pub incremental: bool,
}

impl GcodeState {
    /// No targets, absolute distance mode.
    pub fn new() -> (s: Self)
        ensures
            s.pending_move == no_move(),
            !s.incremental,
    {
        GcodeState { pending_move: PendingMove::new(), incremental: false }
    }

    /// Starts a G command with major number `major`. Returns whether the command's
    /// arguments describe a move, and records a change of distance mode.
    pub fn start_general_code(&mut self, major: u32) -> (is_move: bool)
        ensures
            is_move == is_move_code(major),
            final(self).incremental == mode_after(old(self).incremental, major),
            final(self).pending_move == old(self).pending_move,
    {
        match major {
            0 | 1 => true,
            91 => {
                self.incremental = true;
                true
            },
            90 => {
                self.incremental = false;
                false
            },
            _ => false,
        }
    }

    /// An argument of the current command; `is_move` is what
    /// [`GcodeState::start_general_code`] returned for that command.
    pub fn argument(&mut self, is_move: bool, letter: char, value: ArgumentValue)
        ensures
            final(self).pending_move == move_after_argument(
                old(self).pending_move,
                is_move,
                letter,
                value,
            ),
            final(self).incremental == old(self).incremental,
    {
        if is_move {
            if let ArgumentValue::Literal(v) = value {
                match letter {
                    'Z' | 'z' => {
                        self.pending_move.pending_move_zed = Some(v);
                    },
                    'A' | 'a' => {
                        self.pending_move.pending_move_shoulder = Some(v);
                    },
                    'B' | 'b' => {
                        self.pending_move.pending_move_elbow = Some(v);
                    },
                    'C' | 'c' => {
                        self.pending_move.pending_move_yaw = Some(v);
                    },
                    'U' | 'u' => {
                        self.pending_move.pending_move_wrist_pitch = Some(v);
                    },
                    'V' | 'v' => {
                        self.pending_move.pending_move_wrist_roll = Some(v);
                    },
                    'W' | 'w' => {
                        self.pending_move.pending_move_grip = Some(v);
                    },
                    _ => {},
                }
            }
        }
    }
}

/// A literal axis word of a move sets the target of its own joint to that literal and
/// leaves every other joint's target as it was: `Z` the vertical slideway, `A` the
/// shoulder, `B` the elbow, `C` the yaw, `U` the wrist pitch, `V` the wrist roll and
/// `W` the gripper, in either case; other letters change nothing.
pub proof fn law_axis_word_sets_only_its_joint(m: PendingMove, letter: char, v: u32)
    ensures
        ({
            let r = move_after_argument(m, true, letter, ArgumentValue::Literal(v));
            &&& r.pending_move_zed == (if letter == 'Z' || letter == 'z' {
                Some(v)
            } else {
                m.pending_move_zed
            })
            &&& r.pending_move_shoulder == (if letter == 'A' || letter == 'a' {
                Some(v)
            } else {
                m.pending_move_shoulder
            })
            &&& r.pending_move_elbow == (if letter == 'B' || letter == 'b' {
                Some(v)
            } else {
                m.pending_move_elbow
            })
            &&& r.pending_move_yaw == (if letter == 'C' || letter == 'c' {
                Some(v)
            } else {
                m.pending_move_yaw
            })
            &&& r.pending_move_wrist_pitch == (if letter == 'U' || letter == 'u' {
                Some(v)
            } else {
                m.pending_move_wrist_pitch
            })
            &&& r.pending_move_wrist_roll == (if letter == 'V' || letter == 'v' {
                Some(v)
            } else {
                m.pending_move_wrist_roll
            })
            &&& r.pending_move_grip == (if letter == 'W' || letter == 'w' {
                Some(v)
            } else {
                m.pending_move_grip
            })
        }),
{
}

/// Only G0, G1 and G91 move: the arguments of any other G command (such as G92, which
/// sets a coordinate) leave the pending move as it was, while a `Z` word of G0, G1 or
/// G91 sets the vertical target.
pub proof fn law_only_motion_codes_set_targets(
    m: PendingMove,
    major: u32,
    letter: char,
    value: ArgumentValue,
)
    ensures
        major != 0 && major != 1 && major != 91 ==> move_after_argument(
            m,
            is_move_code(major),
            letter,
            value,
        ) == m,
        (major == 0 || major == 1 || major == 91) ==> is_move_code(major),
        (major == 0 || major == 1 || major == 91) ==> forall|v: u32|
            #[trigger] move_after_argument(
                m,
                is_move_code(major),
                'Z',
                ArgumentValue::Literal(v),
            ).pending_move_zed == Some(v),
{
}

} // verus!
