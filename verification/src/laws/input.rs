//! What keys and the pointer mean.
use crate::message::{
    ContextMenuMessage, Message, OpenMessage, ToolbarMessage, VideoMessage, ViewerMessage,
};
use crate::shortcuts::typed;
use crate::subscription::{event_message, Event};
use vstd::prelude::*;

verus! {

/// What the key with the single character `c` means.
pub open spec fn meaning(c: char, ctrl: bool, shift: bool) -> Option<Message> {
    if !ctrl && (c == 'f' || c == 'F') {
        Some(Message::Viewer(ViewerMessage::ToggleFullscreen))
    } else if !ctrl && (c == 'i' || c == 'I') {
        Some(Message::Viewer(ViewerMessage::ToggleInfo))
    } else if !ctrl && (c == 't' || c == 'T') {
        Some(Message::Toolbar(ToolbarMessage::ToggleToolbar))
    } else if !ctrl && c == 'r' {
        Some(Message::Viewer(ViewerMessage::Rotate(1)))
    } else if !ctrl && c == 'R' {
        Some(Message::Viewer(ViewerMessage::Rotate(3)))
    } else if c == '?' {
        Some(Message::Viewer(ViewerMessage::ToggleHelp))
    } else if c == '+' || c == '=' {
        Some(Message::Viewer(ViewerMessage::ZoomStep(1)))
    } else if c == '-' {
        Some(Message::Viewer(ViewerMessage::ZoomStep((-1) as i32)))
    } else if ctrl && c == '0' {
        Some(Message::Viewer(ViewerMessage::ResetZoom))
    } else if ctrl && c == '1' {
        Some(Message::Viewer(ViewerMessage::ZoomActual))
    } else if ctrl && shift && (c == 'c' || c == 'C') {
        Some(Message::ContextMenu(ContextMenuMessage::CopyFilePath))
    } else if ctrl && !shift && c == 'c' {
        Some(Message::ContextMenu(ContextMenuMessage::CopyImage))
    } else if ctrl && (c == 'o' || c == 'O') {
        Some(Message::Open(OpenMessage::OpenFile))
    } else if !ctrl && (c == 'm' || c == 'M') {
        Some(Message::VideoControls(VideoMessage::ToggleMute))
    } else if !ctrl && (c == 'j' || c == 'J') {
        Some(Message::VideoControls(VideoMessage::SeekBy((-10) as i32)))
    } else if !ctrl && (c == 'l' || c == 'L') {
        Some(Message::VideoControls(VideoMessage::SeekBy(10)))
    } else if !ctrl && c == '.' {
        Some(Message::VideoControls(VideoMessage::StepFrame(1)))
    } else if !ctrl && c == ',' {
        Some(Message::VideoControls(VideoMessage::StepFrame((-1) as i32)))
    } else {
        None
    }
}

/// A key that types one character means what that character means; one that
/// types more, or none, means nothing.
pub proof fn law_typed_keys(text: Seq<char>, ctrl: bool, shift: bool)
    ensures
        typed(text, ctrl, shift) == if text.len() == 1 {
            meaning(text[0], ctrl, shift)
        } else {
            None
        },
{
    reveal_strlit("f");
    reveal_strlit("F");
    reveal_strlit("i");
    reveal_strlit("I");
    reveal_strlit("t");
    reveal_strlit("T");
    reveal_strlit("r");
    reveal_strlit("R");
    reveal_strlit("?");
    reveal_strlit("+");
    reveal_strlit("=");
    reveal_strlit("-");
    reveal_strlit("0");
    reveal_strlit("1");
    reveal_strlit("c");
    reveal_strlit("C");
    reveal_strlit("o");
    reveal_strlit("O");
    reveal_strlit("m");
    reveal_strlit("M");
    reveal_strlit("j");
    reveal_strlit("J");
    reveal_strlit("l");
    reveal_strlit("L");
    reveal_strlit(".");
    reveal_strlit(",");
    if text.len() == 1 {
        assert(text =~= seq![text[0]]);
        assert((text == "f"@) == (text[0] == 'f')) by {
            assert("f"@ =~= seq!['f']);
        }
        assert((text == "F"@) == (text[0] == 'F')) by {
            assert("F"@ =~= seq!['F']);
        }
        assert((text == "i"@) == (text[0] == 'i')) by {
            assert("i"@ =~= seq!['i']);
        }
        assert((text == "I"@) == (text[0] == 'I')) by {
            assert("I"@ =~= seq!['I']);
        }
        assert((text == "t"@) == (text[0] == 't')) by {
            assert("t"@ =~= seq!['t']);
        }
        assert((text == "T"@) == (text[0] == 'T')) by {
            assert("T"@ =~= seq!['T']);
        }
        assert((text == "r"@) == (text[0] == 'r')) by {
            assert("r"@ =~= seq!['r']);
        }
        assert((text == "R"@) == (text[0] == 'R')) by {
            assert("R"@ =~= seq!['R']);
        }
        assert((text == "?"@) == (text[0] == '?')) by {
            assert("?"@ =~= seq!['?']);
        }
        assert((text == "+"@) == (text[0] == '+')) by {
            assert("+"@ =~= seq!['+']);
        }
        assert((text == "="@) == (text[0] == '=')) by {
            assert("="@ =~= seq!['=']);
        }
        assert((text == "-"@) == (text[0] == '-')) by {
            assert("-"@ =~= seq!['-']);
        }
        assert((text == "0"@) == (text[0] == '0')) by {
            assert("0"@ =~= seq!['0']);
        }
        assert((text == "1"@) == (text[0] == '1')) by {
            assert("1"@ =~= seq!['1']);
        }
        assert((text == "c"@) == (text[0] == 'c')) by {
            assert("c"@ =~= seq!['c']);
        }
        assert((text == "C"@) == (text[0] == 'C')) by {
            assert("C"@ =~= seq!['C']);
        }
        assert((text == "o"@) == (text[0] == 'o')) by {
            assert("o"@ =~= seq!['o']);
        }
        assert((text == "O"@) == (text[0] == 'O')) by {
            assert("O"@ =~= seq!['O']);
        }
        assert((text == "m"@) == (text[0] == 'm')) by {
            assert("m"@ =~= seq!['m']);
        }
        assert((text == "M"@) == (text[0] == 'M')) by {
            assert("M"@ =~= seq!['M']);
        }
        assert((text == "j"@) == (text[0] == 'j')) by {
            assert("j"@ =~= seq!['j']);
        }
        assert((text == "J"@) == (text[0] == 'J')) by {
            assert("J"@ =~= seq!['J']);
        }
        assert((text == "l"@) == (text[0] == 'l')) by {
            assert("l"@ =~= seq!['l']);
        }
        assert((text == "L"@) == (text[0] == 'L')) by {
            assert("L"@ =~= seq!['L']);
        }
        assert((text == "."@) == (text[0] == '.')) by {
            assert("."@ =~= seq!['.']);
        }
        assert((text == ","@) == (text[0] == ',')) by {
            assert(","@ =~= seq![',']);
        }
    }
}

/// Steps by key and by mouse button are the same: on with the arrow, the letter or
/// the button for it, back with those for that; a held key repeats its step, and
/// its release is told. Other keys mean nothing while they repeat.
pub proof fn law_steps_by_key_and_button(event: Event)
    ensures
        match event {
            Event::KeyPressed { key, modified, ctrl, shift, repeat } => {
                let on = key is ArrowRight || (key is Text && key->0@ == "d"@);
                let back = key is ArrowLeft || (key is Text && key->0@ == "a"@);
                &&& on && !back ==> event_message(event) == Some(
                    Message::Viewer(
                        if repeat {
                            ViewerMessage::NextRepeat
                        } else {
                            ViewerMessage::Next
                        },
                    ),
                )
                &&& back && !on ==> event_message(event) == Some(
                    Message::Viewer(
                        if repeat {
                            ViewerMessage::PrevRepeat
                        } else {
                            ViewerMessage::Prev
                        },
                    ),
                )
                &&& !on && !back && repeat ==> event_message(event) is None
            },
            Event::KeyReleased { key } => {
                let on = key is ArrowRight || (key is Text && key->0@ == "d"@);
                let back = key is ArrowLeft || (key is Text && key->0@ == "a"@);
                &&& on && !back ==> event_message(event) == Some(
                    Message::Viewer(ViewerMessage::NextReleased),
                )
                &&& back && !on ==> event_message(event) == Some(
                    Message::Viewer(ViewerMessage::PrevReleased),
                )
                &&& !on && !back ==> event_message(event) is None
            },
            Event::MouseForward => event_message(event) == Some(
                Message::Viewer(ViewerMessage::Next),
            ),
            Event::MouseBack => event_message(event) == Some(
                Message::Viewer(ViewerMessage::Prev),
            ),
            _ => true,
        },
{
}

} // verus!
