//! The frames of the terminal animation that the gateway streams.
use vstd::prelude::*;
use vstd::string::StrSliceExecFns;

use crate::random::{random_below, thread_rng};

verus! {

broadcast use vstd::string::group_string_axioms;

/// The text that the terminal animation settles on.
pub open spec fn scramble_target() -> Seq<char> {
    "I am sooo\n healthy!"@
}

/// The characters that stand in for a letter not yet settled.
pub open spec fn scramble_alphabet() -> Seq<char> {
    "ABCDEFGHIJKLMNOPQRSTUVWXYZabcdefghijklmnopqrstuvwxyz0123456789!@#$%^&*()_+-="@
}

/// The frame at which every letter has settled; the animation has frames
/// `0` to this one.
pub open spec fn scramble_total_frames() -> nat {
    35
}

/// The escape codes that clear the terminal and put the cursor home.
pub open spec fn clear_screen() -> Seq<char> {
    "\x1B[2J\x1B[H"@
}

/// Whether the animation is over before frame `frame`: it shows frames `0`
/// to the last one.
pub fn scramble_finished(frame: usize) -> (r: bool)
    ensures
        r == (frame > scramble_total_frames()),
{
    frame > 35
}

/// Whether, in frame `frame`, the letter at position `i` of the target shows
/// itself: always from the last frame on; before, only after the frame at
/// which letters up to `i` lock, and then when its roll came up.
pub open spec fn letter_shows(frame: nat, i: nat, roll: bool) -> bool {
    frame >= scramble_total_frames() || (frame > (scramble_total_frames() * i) / scramble_target().len()
        && roll)
}

/// The character that stands at position `i` of frame `frame`, where that
/// position shows its letter or is a line break.
pub open spec fn frame_char_fixed(frame: nat, i: int, roll: bool) -> bool {
    scramble_target()[i] == '\n' || letter_shows(frame, i as nat, roll)
}

/// One frame of the terminal animation. `reveal_rolls[i]` is the chance roll
/// that decides whether letter `i` shows, once its turn has come; a letter
/// that does not show is replaced by a random character of the alphabet.
pub fn scramble_frame(frame: usize, reveal_rolls: &Vec<bool>) -> (r: String)
    requires
        reveal_rolls@.len() == scramble_target().len(),
    ensures
        r@.len() == clear_screen().len() + scramble_target().len() + (if frame
            == scramble_total_frames() {
            1int
        } else {
            0int
        }),
        r@.subrange(0, clear_screen().len() as int) == clear_screen(),
        forall|i: int|
            0 <= i < scramble_target().len() ==> {
                let c = #[trigger] r@[clear_screen().len() + i];
                if frame_char_fixed(frame as nat, i, reveal_rolls@[i]) {
                    c == scramble_target()[i]
                } else {
                    scramble_alphabet().contains(c)
                }
            },
        frame == scramble_total_frames() ==> r@.last() == '\n',
        frame >= scramble_total_frames() ==> r@.subrange(
            clear_screen().len() as int,
            (clear_screen().len() + scramble_target().len()) as int,
        ) == scramble_target(),
{
    let target = "I am sooo\n healthy!";
    let alphabet = "ABCDEFGHIJKLMNOPQRSTUVWXYZabcdefghijklmnopqrstuvwxyz0123456789!@#$%^&*()_+-=";
    let total_frames: usize = 35;
    proof {
        reveal_strlit("I am sooo\n healthy!");
        reveal_strlit("ABCDEFGHIJKLMNOPQRSTUVWXYZabcdefghijklmnopqrstuvwxyz0123456789!@#$%^&*()_+-=");
        reveal_strlit("\x1B[2J\x1B[H");
    }
    let target_len: usize = 19;
    let alphabet_len: usize = 76;
    let mut rng = thread_rng();
    let mut display = "\x1B[2J\x1B[H".to_string();
    let mut i: usize = 0;
    while i < target_len
        invariant
            i <= target_len,
            target_len == 19,
            alphabet_len == 76,
            target_len == scramble_target().len(),
            alphabet_len == scramble_alphabet().len(),
            target@ == scramble_target(),
            alphabet@ == scramble_alphabet(),
            total_frames == scramble_total_frames(),
            reveal_rolls@.len() == scramble_target().len(),
            display@.len() == clear_screen().len() + i,
            display@.subrange(0, clear_screen().len() as int) == clear_screen(),
            forall|j: int|
                0 <= j < i ==> {
                    let c = #[trigger] display@[clear_screen().len() + j];
                    if frame_char_fixed(frame as nat, j, reveal_rolls@[j]) {
                        c == scramble_target()[j]
                    } else {
                        scramble_alphabet().contains(c)
                    }
                },
        decreases target_len - i,
    {
        let ghost before = display@;
        let c = target.get_char(i);
        if c == '\n' || frame >= total_frames || (frame > (total_frames * i) / target_len
            && reveal_rolls[i]) {
            display.append(target.substring_char(i, i + 1));
            assert(display@[clear_screen().len() + i] == scramble_target()[i as int]);
        } else {
            let pick = random_below(&mut rng, alphabet_len);
            display.append(alphabet.substring_char(pick, pick + 1));
            assert(display@[clear_screen().len() + i] == scramble_alphabet()[pick as int]);
        }
        assert forall|j: int| 0 <= j < clear_screen().len() implies display@[j] == before[j] by {}
        assert(display@.subrange(0, clear_screen().len() as int) =~= before.subrange(
            0,
            clear_screen().len() as int,
        ));
        assert forall|j: int| 0 <= j < i implies #[trigger] display@[clear_screen().len() + j]
            == before[clear_screen().len() + j] by {}
        i += 1;
    }
    if frame >= total_frames {
        assert forall|j: int| 0 <= j < scramble_target().len() implies display@.subrange(
            clear_screen().len() as int,
            (clear_screen().len() + scramble_target().len()) as int,
        )[j] == scramble_target()[j] by {
            assert(frame_char_fixed(frame as nat, j, reveal_rolls@[j]));
            assert(display@[clear_screen().len() + j] == scramble_target()[j]);
        }
    }
    assert(frame >= total_frames ==> display@.subrange(
        clear_screen().len() as int,
        (clear_screen().len() + scramble_target().len()) as int,
    ) =~= scramble_target());
    if frame == total_frames {
        display.append("\n");
        proof {
            reveal_strlit("\n");
        }
    }
    display
}

} // verus!
