use vstd::prelude::*;

use crate::patterns::elapsed_ms;
use crate::patterns::pressed_count;

verus! {

/// What the decoder writes: letters and punctuation, or the decimal digits of
/// one code while a number is being entered.
#[derive(Debug, Copy, Clone, PartialEq, Eq, Structural)]
pub enum WritingMode {
    Letters,
    Numbers,
}

/// Index (zero-based) of the first asserted finger, or 5 when none is.
pub open spec fn first_pressed(moved: Seq<bool>) -> int {
    if moved[0] {
        0
    } else if moved[1] {
        1
    } else if moved[2] {
        2
    } else if moved[3] {
        3
    } else if moved[4] {
        4
    } else {
        5
    }
}

/// The chord digit of a movement vector: `Some(i + 1)` exactly when finger
/// `i` is the only one asserted.
pub open spec fn hand_value(moved: Seq<bool>) -> Option<u8> {
    if pressed_count(moved) == 1 {
        Some((first_pressed(moved) + 1) as u8)
    } else {
        None
    }
}

/// The chord digit of a movement vector: a digit in 1..=5 when exactly one
/// finger is asserted, and nothing on idle or multi-finger vectors.
pub fn compute_hand_value(moved_fingers: &[bool; 5]) -> (r: Option<u8>)
    ensures
        r == hand_value(moved_fingers@),
        r matches Some(d) ==> 1 <= d <= 5,
{
    if crate::patterns::count_pressed(moved_fingers) == 1 {
        if moved_fingers[0] {
            Some(1)
        } else if moved_fingers[1] {
            Some(2)
        } else if moved_fingers[2] {
            Some(3)
        } else if moved_fingers[3] {
            Some(4)
        } else {
            Some(5)
        }
    } else {
        None
    }
}

/// The letter written for a code in 1..=26, 1 being `A`.
pub open spec fn letter_char(code: int) -> char {
    if code == 1 {
        'A'
    } else if code == 2 {
        'B'
    } else if code == 3 {
        'C'
    } else if code == 4 {
        'D'
    } else if code == 5 {
        'E'
    } else if code == 6 {
        'F'
    } else if code == 7 {
        'G'
    } else if code == 8 {
        'H'
    } else if code == 9 {
        'I'
    } else if code == 10 {
        'J'
    } else if code == 11 {
        'K'
    } else if code == 12 {
        'L'
    } else if code == 13 {
        'M'
    } else if code == 14 {
        'N'
    } else if code == 15 {
        'O'
    } else if code == 16 {
        'P'
    } else if code == 17 {
        'Q'
    } else if code == 18 {
        'R'
    } else if code == 19 {
        'S'
    } else if code == 20 {
        'T'
    } else if code == 21 {
        'U'
    } else if code == 22 {
        'V'
    } else if code == 23 {
        'W'
    } else if code == 24 {
        'X'
    } else if code == 25 {
        'Y'
    } else {
        'Z'
    }
}

/// The character of one decimal digit.
pub open spec fn dec_digit_char(d: int) -> char {
    if d == 0 {
        '0'
    } else if d == 1 {
        '1'
    } else if d == 2 {
        '2'
    } else if d == 3 {
        '3'
    } else if d == 4 {
        '4'
    } else if d == 5 {
        '5'
    } else if d == 6 {
        '6'
    } else if d == 7 {
        '7'
    } else if d == 8 {
        '8'
    } else {
        '9'
    }
}

/// The decimal digit string of a value below 1000, without leading zeros.
pub open spec fn decimal_rep(v: int) -> Seq<char> {
    if v < 10 {
        seq![dec_digit_char(v)]
    } else if v < 100 {
        seq![dec_digit_char(v / 10), dec_digit_char(v % 10)]
    } else {
        seq![dec_digit_char(v / 100), dec_digit_char((v / 10) % 10), dec_digit_char(v % 10)]
    }
}

/// The writing mode after a code is applied: entering a number always falls
/// back to letters; code 27 switches to numbers; every other code leaves the
/// mode alone.
pub open spec fn apply_mode(mode: WritingMode, code: int) -> WritingMode {
    if mode is Numbers {
        WritingMode::Letters
    } else if code == 27 {
        WritingMode::Numbers
    } else {
        mode
    }
}

/// What a code emits. In numbers mode the decimal digits of the code itself
/// (code 30 stands for the digit 0). In letters mode: 27 is the silent mode
/// switch, 28 the backspace control character, 29 a dot, 30 a space, 1..=26
/// the letters A..Z; anything else is defensively silent.
pub open spec fn apply_emission(mode: WritingMode, code: int) -> Option<Seq<char>> {
    if mode is Numbers {
        if code == 30 {
            Some(seq!['0'])
        } else {
            Some(decimal_rep(code))
        }
    } else if code == 27 {
        None
    } else if code == 28 {
        Some(seq!['\u{8}'])
    } else if code == 29 {
        Some(seq!['.'])
    } else if code == 30 {
        Some(seq![' '])
    } else if 1 <= code <= 26 {
        Some(seq![letter_char(code)])
    } else {
        None
    }
}

/// The mathematical state of a `TextPattern`.
pub ghost struct TextPatternView {
    pub last_hand: Seq<bool>,
    pub current_value: Option<u8>,
    pub current_mode: WritingMode,
    pub max_ms_delay: u32,
    pub last_moved_time: u64,
}

impl TextPatternView {
    /// A buffered first digit is always a chord digit, that is in 1..=5.
    pub open spec fn wf(self) -> bool {
        self.current_value matches Some(d) ==> 1 <= d <= 5
    }
}

/// One step of the decoder. A chord digit is read only from a vector that
/// differs from the previous one and asserts exactly one finger. A first
/// digit is buffered; a second digit resolves the two-chord code
/// `first * 5 + second`; silence past the configured delay resolves the
/// buffered digit as its own code.
pub open spec fn text_step(s: TextPatternView, moved: Seq<bool>, time: u64) -> (TextPatternView,
    Option<Seq<char>>) {
    let digit = if moved == s.last_hand {
        None
    } else {
        hand_value(moved)
    };
    let base = TextPatternView { last_hand: moved, ..s };
    match (digit, s.current_value) {
        (Some(d), None) => (
            TextPatternView { current_value: Some(d), last_moved_time: time, ..base },
            None,
        ),
        (Some(d), Some(cv)) => {
            let code = cv * 5 + d;
            (
                TextPatternView {
                    current_value: None,
                    current_mode: apply_mode(s.current_mode, code),
                    last_moved_time: time,
                    ..base
                },
                apply_emission(s.current_mode, code),
            )
        },
        (None, Some(cv)) => {
            if elapsed_ms(time, s.last_moved_time) > s.max_ms_delay {
                (
                    TextPatternView {
                        current_value: None,
                        current_mode: apply_mode(s.current_mode, cv as int),
                        ..base
                    },
                    apply_emission(s.current_mode, cv as int),
                )
            } else {
                (base, None)
            }
        },
        (None, None) => (base, None),
    }
}

/// Entering a number is a round trip of the writing mode: code 27 switches
/// silently from letters to numbers, and whatever code is resolved next emits
/// its decimal digits (code 30 stands for the digit 0) and falls back to
/// letters.
pub proof fn lemma_numbers_mode_round_trip(code: int)
    ensures
        apply_mode(WritingMode::Letters, 27) == WritingMode::Numbers,
        apply_emission(WritingMode::Letters, 27) is None,
        apply_mode(WritingMode::Numbers, code) == WritingMode::Letters,
        apply_emission(WritingMode::Numbers, code) == Some(
            if code == 30 {
                seq!['0']
            } else {
                decimal_rep(code)
            },
        ),
{
}

/// Chord-based text decoder: pairs of single-finger chords, with a timeout
/// that resolves a lone first chord, are mapped to characters handed back to
/// the caller.
pub struct TextPattern {
    last_hand: [bool; 5],
    current_value: Option<u8>,
    current_mode: WritingMode,
    max_ms_delay: u32,
    last_moved_time: u64,
    use_keyboard_emulation: bool,
}

impl View for TextPattern {
    type V = TextPatternView;

    closed spec fn view(&self) -> TextPatternView {
        TextPatternView {
            last_hand: self.last_hand@,
            current_value: self.current_value,
            current_mode: self.current_mode,
            max_ms_delay: self.max_ms_delay,
            last_moved_time: self.last_moved_time,
        }
    }
}

fn eq_bool5(a: &[bool; 5], b: &[bool; 5]) -> (r: bool)
    ensures
        r == (a@ =~= b@),
{
    let r = a[0] == b[0] && a[1] == b[1] && a[2] == b[2] && a[3] == b[3] && a[4] == b[4];
    proof {
        if r {
            assert(a@ =~= b@);
        }
    }
    r
}

fn digit_str(d: u8) -> (r: &'static str)
    requires
        d < 10,
    ensures
        r@ =~= seq![dec_digit_char(d as int)],
{
    match d {
        0 => {
            proof {
                reveal_strlit("0");
            }
            "0"
        },
        1 => {
            proof {
                reveal_strlit("1");
            }
            "1"
        },
        2 => {
            proof {
                reveal_strlit("2");
            }
            "2"
        },
        3 => {
            proof {
                reveal_strlit("3");
            }
            "3"
        },
        4 => {
            proof {
                reveal_strlit("4");
            }
            "4"
        },
        5 => {
            proof {
                reveal_strlit("5");
            }
            "5"
        },
        6 => {
            proof {
                reveal_strlit("6");
            }
            "6"
        },
        7 => {
            proof {
                reveal_strlit("7");
            }
            "7"
        },
        8 => {
            proof {
                reveal_strlit("8");
            }
            "8"
        },
        _ => {
            proof {
                reveal_strlit("9");
            }
            "9"
        },
    }
}

fn decimal_string(value: u8) -> (r: String)
    ensures
        r@ =~= decimal_rep(value as int),
{
    if value < 10 {
        String::from_str(digit_str(value))
    } else if value < 100 {
        let r = String::from_str(digit_str(value / 10)).concat(digit_str(value % 10));
        proof {
            assert(r@ =~= decimal_rep(value as int));
        }
        r
    } else {
        let r = String::from_str(digit_str(value / 100)).concat(
            digit_str((value / 10) % 10),
        ).concat(digit_str(value % 10));
        proof {
            assert(r@ =~= decimal_rep(value as int));
        }
        r
    }
}

fn letter_str(code: u8) -> (r: &'static str)
    requires
        1 <= code <= 26,
    ensures
        r@ =~= seq![letter_char(code as int)],
{
    match code {
        1 => {
            proof {
                reveal_strlit("A");
            }
            "A"
        },
        2 => {
            proof {
                reveal_strlit("B");
            }
            "B"
        },
        3 => {
            proof {
                reveal_strlit("C");
            }
            "C"
        },
        4 => {
            proof {
                reveal_strlit("D");
            }
            "D"
        },
        5 => {
            proof {
                reveal_strlit("E");
            }
            "E"
        },
        6 => {
            proof {
                reveal_strlit("F");
            }
            "F"
        },
        7 => {
            proof {
                reveal_strlit("G");
            }
            "G"
        },
        8 => {
            proof {
                reveal_strlit("H");
            }
            "H"
        },
        9 => {
            proof {
                reveal_strlit("I");
            }
            "I"
        },
        10 => {
            proof {
                reveal_strlit("J");
            }
            "J"
        },
        11 => {
            proof {
                reveal_strlit("K");
            }
            "K"
        },
        12 => {
            proof {
                reveal_strlit("L");
            }
            "L"
        },
        13 => {
            proof {
                reveal_strlit("M");
            }
            "M"
        },
        14 => {
            proof {
                reveal_strlit("N");
            }
            "N"
        },
        15 => {
            proof {
                reveal_strlit("O");
            }
            "O"
        },
        16 => {
            proof {
                reveal_strlit("P");
            }
            "P"
        },
        17 => {
            proof {
                reveal_strlit("Q");
            }
            "Q"
        },
        18 => {
            proof {
                reveal_strlit("R");
            }
            "R"
        },
        19 => {
            proof {
                reveal_strlit("S");
            }
            "S"
        },
        20 => {
            proof {
                reveal_strlit("T");
            }
            "T"
        },
        21 => {
            proof {
                reveal_strlit("U");
            }
            "U"
        },
        22 => {
            proof {
                reveal_strlit("V");
            }
            "V"
        },
        23 => {
            proof {
                reveal_strlit("W");
            }
            "W"
        },
        24 => {
            proof {
                reveal_strlit("X");
            }
            "X"
        },
        25 => {
            proof {
                reveal_strlit("Y");
            }
            "Y"
        },
        _ => {
            proof {
                reveal_strlit("Z");
            }
            "Z"
        },
    }
}

impl TextPattern {
    /// A fresh decoder: idle, writing letters, with the default one-second
    /// chord timeout and no keyboard mirroring.
    pub fn new() -> (t: Self)
        ensures
            t@ == (TextPatternView {
                last_hand: [false, false, false, false, false]@,
                current_value: None,
                current_mode: WritingMode::Letters,
                max_ms_delay: 1000,
                last_moved_time: 0,
            }),
            t@.wf(),
            !t.keyboard_emulation_enabled(),
    {
        Self {
            last_hand: [false, false, false, false, false],
            current_value: None,
            current_mode: WritingMode::Letters,
            max_ms_delay: 1000,
            last_moved_time: 0,
            use_keyboard_emulation: false,
        }
    }

    /// Whether decoded characters should additionally be mirrored to a
    /// keyboard-emulation sink. The flag never alters decoding itself.
    pub closed spec fn keyboard_emulation_enabled(&self) -> bool {
        self.use_keyboard_emulation
    }

    /// Reconfigures the chord timeout.
    pub fn max_ms_delay(&mut self, max_ms_delay: u32)
        ensures
            final(self)@ == (TextPatternView { max_ms_delay, ..old(self)@ }),
            final(self).keyboard_emulation_enabled() == old(self).keyboard_emulation_enabled(),
    {
        self.max_ms_delay = max_ms_delay;
    }

    /// Switches keyboard mirroring on or off, mid-session if need be.
    pub fn use_keyboard_emulation(&mut self, use_keyboard_emulation: bool)
        ensures
            final(self)@ == old(self)@,
            final(self).keyboard_emulation_enabled() == use_keyboard_emulation,
    {
        self.use_keyboard_emulation = use_keyboard_emulation;
    }

    /// Whether an emission should currently be mirrored to the keyboard sink.
    pub fn mirrors_to_keyboard(&self) -> (r: bool)
        ensures
            r == self.keyboard_emulation_enabled(),
    {
        self.use_keyboard_emulation
    }

    /// Applies one resolved code: updates the writing mode as `apply_mode`
    /// says and returns the characters of `apply_emission`, if any.
    fn apply_value(&mut self, value: u8) -> (emitted: Option<String>)
        ensures
            final(self)@ == (TextPatternView {
                current_mode: apply_mode(old(self)@.current_mode, value as int),
                ..old(self)@
            }),
            final(self).keyboard_emulation_enabled() == old(self).keyboard_emulation_enabled(),
            match apply_emission(old(self)@.current_mode, value as int) {
                Some(chars) => emitted matches Some(e) && e@ == chars,
                None => emitted is None,
            },
    {
        if self.current_mode == WritingMode::Numbers {
            let s = if value == 30 {
                proof {
                    reveal_strlit("0");
                }
                let z = String::from_str("0");
                proof {
                    assert(z@ =~= seq!['0']);
                }
                z
            } else {
                decimal_string(value)
            };
            self.current_mode = WritingMode::Letters;
            Some(s)
        } else if value == 27 {
            self.current_mode = WritingMode::Numbers;
            None
        } else if value == 28 {
            proof {
                reveal_strlit("\u{8}");
            }
            let s = String::from_str("\u{8}");
            proof {
                assert(s@ =~= seq!['\u{8}']);
            }
            Some(s)
        } else if value == 29 {
            proof {
                reveal_strlit(".");
            }
            let s = String::from_str(".");
            proof {
                assert(s@ =~= seq!['.']);
            }
            Some(s)
        } else if value == 30 {
            proof {
                reveal_strlit(" ");
            }
            let s = String::from_str(" ");
            proof {
                assert(s@ =~= seq![' ']);
            }
            Some(s)
        } else if 1 <= value && value <= 26 {
            Some(String::from_str(letter_str(value)))
        } else {
            None
        }
    }

    /// Advances the decoder by one movement vector, as `text_step` says, and
    /// returns the characters written by a code this vector resolved, if any.
    pub fn process_moved_fingers(&mut self, moved_fingers: &[bool; 5], time: u64) -> (emitted:
        Option<String>)
        requires
            old(self)@.wf(),
        ensures
            final(self)@ == text_step(old(self)@, moved_fingers@, time).0,
            final(self)@.wf(),
            final(self).keyboard_emulation_enabled() == old(self).keyboard_emulation_enabled(),
            match text_step(old(self)@, moved_fingers@, time).1 {
                Some(chars) => emitted matches Some(e) && e@ == chars,
                None => emitted is None,
            },
    {
        let changed = !eq_bool5(&self.last_hand, moved_fingers);
        let new_hand_value = if changed {
            compute_hand_value(moved_fingers)
        } else {
            None
        };

        self.last_hand = *moved_fingers;

        match (new_hand_value, self.current_value) {
            (Some(d), None) => {
                self.current_value = Some(d);
                self.last_moved_time = time;
                None
            },
            (Some(d), Some(current_value)) => {
                let total_value = current_value * 5 + d;
                let emitted = self.apply_value(total_value);
                self.current_value = None;
                self.last_moved_time = time;
                emitted
            },
            (None, Some(current_value)) => {
                let elapsed = if time >= self.last_moved_time {
                    time - self.last_moved_time
                } else {
                    0
                };
                if elapsed > self.max_ms_delay as u64 {
                    let emitted = self.apply_value(current_value);
                    self.current_value = None;
                    emitted
                } else {
                    None
                }
            },
            (None, None) => None,
        }
    }
}

} // verus!
