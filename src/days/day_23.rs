//! Fragments of an htmx page: a lit star, presents that cycle through three
//! colors, and ornaments that switch on and off.
use vstd::prelude::*;

use crate::days::Endpoint;

verus! {

/// An HTML fragment.
#[derive(Debug)]
pub struct Html {
    pub text: String,
}

impl Html {
    pub fn new(text: String) -> (r: Self)
        ensures
            r.text@ == text@,
    {
        Self { text }
    }
}

/// The request named a color or a state that does not exist.
#[derive(Debug, Clone, Copy, PartialEq, Eq, Structural)]
pub enum Error {
    Invalid,
}

impl Error {
    pub fn message(&self) -> (r: &'static str)
        ensures
            r@ == "invalid"@,
    {
        "invalid"
    }

    /// "I'm a teapot".
    pub fn status_code(&self) -> (r: u16)
        ensures
            r == 418,
    {
        418
    }
}

/// Two strings hold the same characters.
pub fn same_text(a: &str, b: &str) -> (r: bool)
    ensures
        r == (a@ == b@),
{
    let n = a.unicode_len();
    if n != b.unicode_len() {
        return false;
    }
    let mut i: usize = 0;
    while i < n
        invariant
            n == a@.len(),
            n == b@.len(),
            i <= n,
            forall|j: int| 0 <= j < i ==> a@[j] == b@[j],
        decreases n - i,
    {
        if a.get_char(i) != b.get_char(i) {
            return false;
        }
        i += 1;
    }
    assert(a@ =~= b@);
    true
}

#[derive(Debug, Clone, Copy, PartialEq, Eq, Structural)]
pub enum Color {
    Red,
    Blue,
    Purple,
}

impl Color {
    pub open spec fn next_spec(self) -> Color {
        match self {
            Color::Red => Color::Blue,
            Color::Blue => Color::Purple,
            Color::Purple => Color::Red,
        }
    }

    /// The color that follows, in the cycle red, blue, purple.
    pub fn next(&self) -> (r: Self)
        ensures
            r == self.next_spec(),
    {
        match self {
            Self::Red => Self::Blue,
            Self::Blue => Self::Purple,
            Self::Purple => Self::Red,
        }
    }

    pub open spec fn name_spec(self) -> Seq<char> {
        match self {
            Color::Red => "red"@,
            Color::Blue => "blue"@,
            Color::Purple => "purple"@,
        }
    }

    pub fn name(&self) -> (r: &'static str)
        ensures
            r@ == self.name_spec(),
    {
        match self {
            Self::Red => "red",
            Self::Blue => "blue",
            Self::Purple => "purple",
        }
    }

    pub open spec fn named(s: Seq<char>) -> Option<Color> {
        if s == "red"@ {
            Some(Color::Red)
        } else if s == "blue"@ {
            Some(Color::Blue)
        } else if s == "purple"@ {
            Some(Color::Purple)
        } else {
            None
        }
    }

    /// The color with this name, if any.
    pub fn from_name(s: &str) -> (r: Option<Color>)
        ensures
            r == Color::named(s@),
    {
        if same_text(s, "red") {
            Some(Self::Red)
        } else if same_text(s, "blue") {
            Some(Self::Blue)
        } else if same_text(s, "purple") {
            Some(Self::Purple)
        } else {
            None
        }
    }
}

#[derive(Debug, Clone, Copy, PartialEq, Eq, Structural)]
pub enum State {
    On,
    Off,
}

impl State {
    pub open spec fn next_spec(self) -> State {
        match self {
            State::On => State::Off,
            State::Off => State::On,
        }
    }

    /// The other state.
    pub fn next(&self) -> (r: Self)
        ensures
            r == self.next_spec(),
    {
        match self {
            Self::On => Self::Off,
            Self::Off => Self::On,
        }
    }

    pub open spec fn name_spec(self) -> Seq<char> {
        match self {
            State::On => "on"@,
            State::Off => "off"@,
        }
    }

    pub fn name(&self) -> (r: &'static str)
        ensures
            r@ == self.name_spec(),
    {
        match self {
            Self::On => "on",
            Self::Off => "off",
        }
    }

    pub open spec fn named(s: Seq<char>) -> Option<State> {
        if s == "on"@ {
            Some(State::On)
        } else if s == "off"@ {
            Some(State::Off)
        } else {
            None
        }
    }

    /// The state with this name, if any.
    pub fn from_name(s: &str) -> (r: Option<State>)
        ensures
            r == State::named(s@),
    {
        if same_text(s, "on") {
            Some(Self::On)
        } else if same_text(s, "off") {
            Some(Self::Off)
        } else {
            None
        }
    }
}

/// What a double-quoted attribute value makes of one character.
pub open spec fn escape_char(c: char) -> Seq<char> {
    if c == '&' {
        "&amp;"@
    } else if c == '<' {
        "&lt;"@
    } else if c == '>' {
        "&gt;"@
    } else if c == '"' {
        "&quot;"@
    } else {
        seq![c]
    }
}

/// Text made safe for a double-quoted attribute value.
pub open spec fn escaped(s: Seq<char>) -> Seq<char>
    decreases s.len(),
{
    if s.len() == 0 {
        Seq::empty()
    } else {
        escaped(s.drop_last()) + escape_char(s.last())
    }
}

/// Relies on html_escape::encode_double_quoted_attribute: `&`, `<`, `>`
/// and `"` become `&amp;`, `&lt;`, `&gt;` and `&quot;`, every other
/// character stays as it is.
#[verifier::external_body]
fn encode_attribute(text: &str) -> (r: String)
    ensures
        r@ == escaped(text@),
{
    html_escape::encode_double_quoted_attribute(text).into_owned()
}

pub const STAR: &'static str = "<div id=\"star\" class=\"lit\"></div>";

/// The lit star.
pub fn star() -> (r: Html)
    ensures
        r.text@ == STAR@,
{
    Html::new(STAR.to_owned())
}

pub const PRESENT_OPEN: &'static str = "<div\n            class=\"present ";

pub const PRESENT_LINK: &'static str = "\"\n            hx-get=\"/23/present/";

pub const PRESENT_CLOSE: &'static str = "\"\n            hx-swap=\"outerHTML\"\n        >\n            <div class=\"ribbon\"></div>\n            <div class=\"ribbon\"></div>\n            <div class=\"ribbon\"></div>\n            <div class=\"ribbon\"></div>\n        </div>";

/// A present of color `c`, which asks for the next color when clicked.
pub open spec fn present_text(c: Color) -> Seq<char> {
    PRESENT_OPEN@ + c.name_spec() + PRESENT_LINK@ + c.next_spec().name_spec() + PRESENT_CLOSE@
}

/// The present of the named color, or `Invalid` for an unknown name.
pub fn present(color: &str) -> (r: Result<Html, Error>)
    ensures
        match Color::named(color@) {
            Some(c) => r matches Ok(h) && h.text@ == present_text(c),
            None => r == Err::<Html, Error>(Error::Invalid),
        },
{
    let c = match Color::from_name(color) {
        Some(c) => c,
        None => return Err(Error::Invalid),
    };
    let mut text = PRESENT_OPEN.to_owned();
    text.append(c.name());
    text.append(PRESENT_LINK);
    text.append(c.next().name());
    text.append(PRESENT_CLOSE);
    Ok(Html::new(text))
}

pub const ORNAMENT_OPEN: &'static str = "<div\n            class=\"ornament";

pub const ORNAMENT_ID: &'static str = "\"\n            id=\"ornament";

pub const ORNAMENT_LINK: &'static str = "\"\n            hx-trigger=\"load delay:2s once\"\n            hx-get=\"/23/ornament/";

pub const ORNAMENT_CLOSE: &'static str = "\"\n            hx-swap=\"outerHTML\"\n        ></div>";

/// The class that marks a lit ornament.
pub open spec fn on_class(s: State) -> Seq<char> {
    match s {
        State::On => " on"@,
        State::Off => Seq::empty(),
    }
}

/// Ornament `n` (already escaped) in state `s`, which switches to the other
/// state after two seconds.
pub open spec fn ornament_text(s: State, n: Seq<char>) -> Seq<char> {
    ORNAMENT_OPEN@ + on_class(s) + ORNAMENT_ID@ + n + ORNAMENT_LINK@ + s.next_spec().name_spec() + "/"@ + n + ORNAMENT_CLOSE@
}

/// The ornament `n` in the named state, or `Invalid` for an unknown state.
pub fn ornament(state: &str, n: &str) -> (r: Result<Html, Error>)
    ensures
        match State::named(state@) {
            Some(s) => r matches Ok(h) && h.text@ == ornament_text(s, escaped(n@)),
            None => r == Err::<Html, Error>(Error::Invalid),
        },
{
    let s = match State::from_name(state) {
        Some(s) => s,
        None => return Err(Error::Invalid),
    };
    let n = encode_attribute(n);
    let next_state = s.next();
    let on_class = match s {
        State::On => " on",
        State::Off => {
            proof {
                reveal_strlit("");
            }
            ""
        },
    };
    let mut text = ORNAMENT_OPEN.to_owned();
    text.append(on_class);
    text.append(ORNAMENT_ID);
    text.append(n.as_str());
    text.append(ORNAMENT_LINK);
    text.append(next_state.name());
    text.append("/");
    text.append(n.as_str());
    text.append(ORNAMENT_CLOSE);
    Ok(Html::new(text))
}

/// The routes of this day.
pub open spec fn routes() -> Seq<Endpoint> {
    seq![Endpoint::Star, Endpoint::Present, Endpoint::Ornament]
}

pub fn get_router() -> (r: Vec<Endpoint>)
    ensures
        r@ == routes(),
{
    let mut r: Vec<Endpoint> = Vec::new();
    r.push(Endpoint::Star);
    r.push(Endpoint::Present);
    r.push(Endpoint::Ornament);
    assert(r@ =~= routes());
    r
}

} // verus!
