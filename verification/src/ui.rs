//! What the screen shows: the address of the remote, and an echo of the keys
//! that were pressed. Drawing is left to the host.

use vstd::prelude::*;
use vstd::string::StringExecFns;
use crate::keybinds::Key;

verus! {

/// The mathematical value of a [`UI`].
pub struct UiModel {
    pub addr: Seq<char>,
    pub keypressed: Seq<char>,
}

/// The state of the screen.
#[derive(Debug, Clone, PartialEq, Eq)]
pub struct UI {
    addr: String,
    keypressed: String,
}

impl View for UI {
    type V = UiModel;

    closed spec fn view(&self) -> UiModel {
        UiModel { addr: self.addr@, keypressed: self.keypressed@ }
    }
}

/// The echo after `key` was pressed: a character is appended, Enter appends
/// a line feed, Backspace removes the last character if there is one, Esc
/// clears the echo, and any other key leaves it as it is.
pub open spec fn echoed(keypressed: Seq<char>, key: Key) -> Seq<char> {
    match key {
        Key::Char(ch) => keypressed.push(ch),
        Key::Enter => keypressed.push('\n'),
        Key::Backspace => if keypressed.len() > 0 {
            keypressed.drop_last()
        } else {
            keypressed
        },
        Key::Esc => Seq::empty(),
        _ => keypressed,
    }
}

/// The lines of `text`: what stands between its line feeds, so that a text of
/// `n` line feeds has `n + 1` lines, the last of which may be empty.
pub open spec fn lines_of(text: Seq<char>) -> Seq<Seq<char>>
    decreases text.len(),
{
    if text.len() == 0 {
        seq![Seq::empty()]
    } else {
        let before = lines_of(text.drop_last());
        if text.last() == '\n' {
            before.push(Seq::empty())
        } else {
            before.drop_last().push(before.last().push(text.last()))
        }
    }
}

/// The characters of each string of a sequence.
pub open spec fn texts(strings: Seq<String>) -> Seq<Seq<char>> {
    Seq::new(strings.len(), |i: int| strings[i]@)
}

impl UI {
    /// The screen of a relay that is connected to `addr`, with an empty echo.
    pub fn new(addr: String) -> (ui: Self)
        ensures
            ui@ == (UiModel { addr: addr@, keypressed: Seq::empty() }),
    {
        Self { addr, keypressed: String::new() }
    }

    /// Records that `key` was pressed: see [`echoed`].
    pub fn update(&mut self, key: Key)
        ensures
            final(self)@ == (UiModel { keypressed: echoed(old(self)@.keypressed, key), ..old(self)@ }),
    {
        match key {
            Key::Char(ch) => {
                self.keypressed.push(ch);
            },
            Key::Backspace => {
                let _ = self.keypressed.pop();
            },
            Key::Enter => {
                self.keypressed.push('\n');
            },
            Key::Esc => {
                self.keypressed = String::new();
            },
            _ => {},
        }
    }

    /// The echo of the keys pressed so far.
    pub fn keypressed(&self) -> (r: &str)
        ensures
            r@ == self@.keypressed,
    {
        self.keypressed.as_str()
    }

    /// The line at the top of the screen: `Connected to ` and the address.
    pub fn top_bar(&self) -> (r: String)
        ensures
            r@ == "Connected to "@ + self@.addr,
    {
        let mut line = "Connected to ".to_owned();
        line.append(self.addr.as_str());
        line
    }

    /// The echo, line by line: see [`lines_of`].
    pub fn lines(&self) -> (r: Vec<String>)
        ensures
            texts(r@) == lines_of(self@.keypressed),
    {
        let text = self.keypressed.as_str();
        let mut done: Vec<String> = Vec::new();
        let mut line = String::new();
        for ch in it: text.chars()
            invariant
                it.seq() == text@,
                texts(done@).push(line@) =~= lines_of(text@.take(it.index())),
        {
            proof {
                assert(text@.take(it.index() + 1).drop_last() == text@.take(it.index()));
            }
            let ghost before = texts(done@).push(line@);
            if ch == '\n' {
                done.push(line);
                line = String::new();
                assert(texts(done@) =~= before);
            } else {
                line.push(ch);
                assert(texts(done@) =~= before.drop_last());
            }
        }
        assert(text@.take(text@.len() as int) == text@);
        let ghost before = texts(done@).push(line@);
        done.push(line);
        assert(texts(done@) =~= before);
        done
    }
}

} // verus!
