use vstd::prelude::*;

verus! {

/// A script expression, kept as its source text; an empty text is the empty
/// expression.
#[derive(Clone, Debug)]
pub struct Program(pub String);

/// A command embedded in a line of script text.
#[derive(Clone, Debug)]
pub enum Command {
    /// A paragraph break inside the line.
    Par,
    /// The speaker: a key into the resources, and a name that overrides it
    /// when not empty.
    Character(String, String),
    /// An expression whose value is written into the line.
    Exec(Program),
    /// A choice for the player: its text, the branch taken when it is
    /// chosen, and an expression that says whether it is enabled.
    Switch { text: String, action: Program, enabled: Option<Program> },
    /// A background image, by asset name.
    Bg(String),
    /// A background music track, by asset name.
    Bgm(String),
    /// A video, by asset name.
    Video(String),
}

/// One token of a parsed line: literal text or a command.
#[derive(Clone, Debug)]
pub enum Line {
    Str(String),
    Cmd(Command),
}

/// A parsed line of script text.
#[derive(Clone, Debug)]
pub struct Text(pub Vec<Line>);

/// A byte range in the source text.
#[derive(Clone, Debug)]
pub struct Loc(pub usize, pub usize);

/// A parse failure, with the byte range it was found at.
#[derive(Clone, Debug)]
pub struct ParseError {
    pub loc: Loc,
    pub message: String,
}

impl Text {
    pub fn empty() -> (r: Text)
        ensures
            r.0@.len() == 0,
    {
        Text(Vec::new())
    }
}

} // verus!
