use vstd::prelude::*;
use vstd::string::StrSliceExecFns;
use crate::command::{command_of, parse_command, Command};

verus! {

/// The kind of chat a message came from.
#[derive(Debug, Clone, Copy, PartialEq, Eq, Structural)]
pub enum ChatKind {
    User,
    Group,
    Other,
}

/// What to do with an incoming message.
#[derive(Debug)]
pub enum Route {
    /// Not for this bot.
    Ignore,
    /// Reply with the welcome text.
    Start,
    /// Transfer from the given URL text.
    Upload(String),
    /// An upload directive without its URL: a user input error, no lease is touched.
    MissingUrl,
    /// A private message that is no command: try it as a URL.
    TryUrl,
}

/// The model of a route, with the URL text as characters.
pub enum Directive {
    Ignore,
    Start,
    Upload(Seq<char>),
    MissingUrl,
    TryUrl,
}

impl Route {
    pub open spec fn view(&self) -> Directive {
        match self {
            Route::Ignore => Directive::Ignore,
            Route::Start => Directive::Start,
            Route::Upload(u) => Directive::Upload(u@),
            Route::MissingUrl => Directive::MissingUrl,
            Route::TryUrl => Directive::TryUrl,
        }
    }
}

/// What a message asks for, given its parsed command and whether a bot name in it (if any)
/// names this bot. In a group a bare `/start` is left to whichever bot it was meant for.
pub open spec fn directive_of(
    kind: ChatKind,
    cmd: Option<(Seq<char>, Option<Seq<char>>, Option<Seq<char>>)>,
    addressed: bool,
) -> Directive {
    if kind == ChatKind::Other {
        Directive::Ignore
    } else if cmd is Some && !addressed {
        Directive::Ignore
    } else if cmd is Some && kind == ChatKind::Group && cmd.unwrap().0 == "start"@ && cmd.unwrap().1 is None {
        Directive::Ignore
    } else if cmd is Some && cmd.unwrap().0 == "start"@ {
        Directive::Start
    } else if cmd is Some && cmd.unwrap().0 == "upload"@ {
        match cmd.unwrap().2 {
            Some(a) => Directive::Upload(a),
            None => Directive::MissingUrl,
        }
    } else if kind == ChatKind::User {
        Directive::TryUrl
    } else {
        Directive::Ignore
    }
}

/// The lower-case form of a text, as `str::to_lowercase` gives it.
pub uninterp spec fn lower_of(s: Seq<char>) -> Seq<char>;

/// Relies on `str::to_lowercase`: the result depends on the characters alone.
#[verifier::external_body]
pub(crate) fn lowercase(s: &str) -> (r: String)
    ensures
        r@ == lower_of(s@),
{
    s.to_lowercase()
}

/// Whether the command, if it names a bot, names the bot called `me`, ignoring case.
pub open spec fn addressed_to(via: Option<Seq<char>>, me: Seq<char>) -> bool {
    match via {
        Some(v) => lower_of(v) == lower_of(me),
        None => true,
    }
}

/// Whether two texts hold the same characters.
pub fn same_text(a: &str, b: &str) -> (r: bool)
    ensures
        r == (a@ == b@),
{
    let n = a.unicode_len();
    if n != b.unicode_len() {
        return false;
    }
    let mut i: usize = 0;
    while i < n
        invariant
            n == a@.len(),
            n == b@.len(),
            i <= n,
            forall|j: int| 0 <= j < i ==> a@[j] == b@[j],
        decreases n - i,
    {
        if a.get_char(i) != b.get_char(i) {
            return false;
        }
        i = i + 1;
    }
    assert(a@ =~= b@);
    true
}

/// Routes a parsed command; `addressed` tells whether its bot name, if any, is this bot's.
pub fn route_command(kind: ChatKind, cmd: Option<Command>, addressed: bool) -> (r: Route)
    ensures
        r@ == directive_of(
            kind,
            match cmd { Some(c) => Some(c.spec_parts()), None => None },
            addressed,
        ),
{
    if kind == ChatKind::Other {
        return Route::Ignore;
    }
    match cmd {
        Some(c) => {
            if !addressed {
                return Route::Ignore;
            }
            let is_start = same_text(c.name.as_str(), "start");
            if kind == ChatKind::Group && is_start && c.via.is_none() {
                return Route::Ignore;
            }
            if is_start {
                return Route::Start;
            }
            if same_text(c.name.as_str(), "upload") {
                return match c.arg {
                    Some(a) => Route::Upload(a),
                    None => Route::MissingUrl,
                };
            }
        },
        None => {},
    }
    if kind == ChatKind::User {
        Route::TryUrl
    } else {
        Route::Ignore
    }
}

/// Routes a message from a chat of the given kind, for the bot called `me` (empty where it
/// has no user name).
pub fn route(text: &str, kind: ChatKind, me: &str) -> (r: Route)
    ensures
        r@ == directive_of(
            kind,
            command_of(text@),
            match command_of(text@) { Some(c) => addressed_to(c.1, me@), None => true },
        ),
{
    let cmd = parse_command(text);
    let addressed = match &cmd {
        Some(c) => match &c.via {
            Some(v) => {
                let lv = lowercase(v.as_str());
                let lm = lowercase(me);
                lv == lm
            },
            None => true,
        },
        None => true,
    };
    route_command(kind, cmd, addressed)
}

} // verus!
