use vstd::prelude::*;

verus! {

/// The two-character line terminator every command ends with.
pub open spec fn crlf() -> Seq<char> {
    seq!['\r', '\n']
}

/// The exact text a command puts on the wire: its name, its payload if it has
/// one, then carriage-return line-feed.
pub open spec fn wire_text(name: Seq<char>, payload: Option<Seq<char>>) -> Seq<char> {
    name + (match payload {
        Some(p) => p,
        None => Seq::<char>::empty(),
    }) + crlf()
}

/// A textual modem command: a fixed name token plus an optional literal
/// payload appended directly after the name.
pub trait AtCommand: Sized {
    /// The command name as written on the wire.
    spec fn name(&self) -> Seq<char>;

    /// The payload written after the name, if any.
    spec fn payload(&self) -> Option<Seq<char>>;

    fn cmd(&self) -> (s: &'static str)
        ensures
            s@ == self.name(),
    ;

    fn data(&self) -> (d: Option<&'static str>)
        ensures
            d is Some <==> self.payload() is Some,
            d matches Some(s) ==> self.payload() == Some(s@),
    ;

    fn with_data(&mut self, data: Option<&'static str>)
        ensures
            final(self).name() == old(self).name(),
            final(self).payload() == (match data {
                Some(s) => Some(s@),
                None => None::<Seq<char>>,
            }),
    ;
}

/// A command value: one parametrized type covers every command variant, with
/// named constructors below for the fixed command set.
pub struct Command {
    name: &'static str,
    payload: Option<&'static str>,
}

impl Command {
    pub fn new(name: &'static str, payload: Option<&'static str>) -> (c: Command)
        ensures
            c.name() == name@,
            c.payload() == (match payload {
                Some(s) => Some(s@),
                None => None::<Seq<char>>,
            }),
    {
        Command { name, payload }
    }

    /// Query the modem's operating mode.
    pub fn cw_mode_query() -> (c: Command)
        ensures
            c.name() == "AT+CWMODE?"@,
            c.payload() is None,
    {
        Command::new("AT+CWMODE?", None)
    }

    /// Set the modem to station mode.
    pub fn cw_mode_set() -> (c: Command)
        ensures
            c.name() == "AT+CWMODE="@,
            c.payload() == Some("1"@),
    {
        Command::new("AT+CWMODE=", Some("1"))
    }
}

impl AtCommand for Command {
    closed spec fn name(&self) -> Seq<char> {
        self.name@
    }

    closed spec fn payload(&self) -> Option<Seq<char>> {
        match self.payload {
            Some(s) => Some(s@),
            None => None,
        }
    }

    fn cmd(&self) -> (s: &'static str) {
        self.name
    }

    fn data(&self) -> (d: Option<&'static str>) {
        self.payload
    }

    fn with_data(&mut self, data: Option<&'static str>) {
        self.payload = data;
    }
}

} // verus!
