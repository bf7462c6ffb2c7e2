//! The slash commands typed into the client's command line, and the engine-mode approval keys.

use vstd::prelude::*;
use vstd::string::*;

use crate::text::{
    chars_of, chars_start_with, is_ws, slice_chars, starts_with, str_eq, string_of, trim,
    trim_bounds, ws,
};

verus! {

/// Whether `rest` begins at a word boundary: empty, or starting with whitespace.
pub open spec fn boundary(rest: Seq<char>) -> bool {
    rest.len() == 0 || ws(rest[0])
}

/// The prompt of an `/ask <prompt>` command: present only for `/ask` at a word boundary with a
/// non-blank prompt.
pub open spec fn ask_prompt(command: Seq<char>) -> Option<Seq<char>> {
    let c = trim(command);
    if starts_with(c, "/ask"@) && boundary(c.skip(4)) && trim(c.skip(4)).len() > 0 {
        Some(trim(c.skip(4)))
    } else {
        None
    }
}

/// Whether `command` is the bare command `name` (surrounding whitespace allowed).
pub open spec fn bare_command(command: Seq<char>, name: Seq<char>) -> bool {
    let c = trim(command);
    starts_with(c, name) && boundary(c.skip(name.len() as int))
}

/// The argument of a `/model` command: `None` when the command is not `/model`, `Some(None)`
/// for a blank argument.
pub open spec fn model_arg(command: Seq<char>) -> Option<Option<Seq<char>>> {
    if starts_with(command, "/model"@) && boundary(command.skip(6)) {
        if trim(command.skip(6)).len() == 0 {
            Some(None)
        } else {
            Some(Some(trim(command.skip(6))))
        }
    } else {
        None
    }
}

/// A parsed `/key` command.
#[derive(Debug, Clone, PartialEq, Eq)]
pub enum KeyCommand {
    List,
    Store(String),
    Clear(String),
}

/// The model of a [`KeyCommand`].
pub enum KeyCommandV {
    List,
    Store(Seq<char>),
    Clear(Seq<char>),
}

impl View for KeyCommand {
    type V = KeyCommandV;

    open spec fn view(&self) -> KeyCommandV {
        match self {
            KeyCommand::List => KeyCommandV::List,
            KeyCommand::Store(p) => KeyCommandV::Store(p@),
            KeyCommand::Clear(p) => KeyCommandV::Clear(p@),
        }
    }
}

/// The meaning of a `/key` command: bare lists the keys, `/key <provider>` sets one, and
/// `/key <provider> clear` clears one.
pub open spec fn key_command(command: Seq<char>) -> Option<KeyCommandV> {
    if starts_with(command, "/key"@) && boundary(command.skip(4)) {
        let arg = trim(command.skip(4));
        if arg.len() == 0 {
            Some(KeyCommandV::List)
        } else if arg.len() >= 6 && arg.skip(arg.len() - 6) == " clear"@ && trim(
            arg.take(arg.len() - 6),
        ).len() > 0 {
            Some(KeyCommandV::Clear(trim(arg.take(arg.len() - 6))))
        } else {
            Some(KeyCommandV::Store(arg))
        }
    } else {
        None
    }
}

/// The providers the connect modal can offer.
pub open spec fn provider_name(name: Seq<char>) -> bool {
    ||| name == "anthropic"@
    ||| name == "openai"@
    ||| name == "gemini"@
    ||| name == "deepseek"@
    ||| name == "ollama"@
}

/// Whether `rest` begins at a word boundary.
pub fn word_boundary(rest: &str) -> (r: bool)
    ensures
        r == boundary(rest@),
{
    let v = chars_of(rest);
    v.len() == 0 || is_ws(v[0])
}

/// Trims `v[a..b]`, returning the bounds of the result.
fn trim_range(v: &Vec<char>, a: usize, b: usize) -> (r: (usize, usize))
    requires
        a <= b <= v.len(),
    ensures
        a <= r.0 <= r.1 <= b,
        v@.subrange(r.0 as int, r.1 as int) == trim(v@.subrange(a as int, b as int)),
{
    let part = slice_chars(v, a, b);
    let (x, y) = trim_bounds(&part);
    assert(v@.subrange(a + x, a + y) =~= part@.subrange(x as int, y as int));
    (a + x, a + y)
}

/// Whether `v[at..]` begins with `p`.
fn starts_at(v: &Vec<char>, at: usize, p: &str) -> (r: bool)
    requires
        at <= v.len(),
    ensures
        r == starts_with(v@.skip(at as int), p@),
{
    let rest = slice_chars(v, at, v.len());
    assert(rest@ =~= v@.skip(at as int));
    chars_start_with(&rest, &chars_of(p))
}

/// Parse `/ask <prompt>` into the prompt. `/ask` with a blank prompt, `/askhello` (no word
/// boundary) and other commands give `None`.
pub fn parse_ask_command(command: &str) -> (r: Option<&str>)
    ensures
        match r {
            Some(p) => ask_prompt(command@) == Some(p@),
            None => ask_prompt(command@) is None,
        },
{
    let v = chars_of(command);
    let (a, b) = trim_range(&v, 0, v.len());
    assert(v@.subrange(0, v.len() as int) =~= v@);
    let ghost c = trim(command@);
    proof {
        reveal_strlit("/ask");
    }
    if !starts_at(&v, a, "/ask") || b - a < 4 {
        assert(c =~= v@.subrange(a as int, b as int));
        assert(v@.skip(a as int).take(4) =~= c.take(4) || b - a < 4);
        return None;
    }
    assert(c.take(4) =~= v@.skip(a as int).take(4));
    assert(c.skip(4) =~= v@.subrange(a + 4, b as int));
    let boundary_ok = a + 4 == b || is_ws(v[a + 4]);
    if !boundary_ok {
        return None;
    }
    let (x, y) = trim_range(&v, a + 4, b);
    if x == y {
        return None;
    }
    Some(command.substring_char(x, y))
}

/// Whether `command` is the bare `name` at a word boundary.
fn is_bare(command: &str, name: &str) -> (r: bool)
    ensures
        r == bare_command(command@, name@),
{
    let v = chars_of(command);
    let (a, b) = trim_range(&v, 0, v.len());
    assert(v@.subrange(0, v.len() as int) =~= v@);
    let ghost c = trim(command@);
    assert(c =~= v@.subrange(a as int, b as int));
    let n = chars_of(name).len();
    if !starts_at(&v, a, name) || b - a < n {
        assert(v@.skip(a as int).take(n as int) =~= c.take(n as int) || b - a < n);
        return false;
    }
    assert(c.skip(n as int) =~= v@.subrange(a + n, b as int));
    assert(c.take(n as int) =~= v@.skip(a as int).take(n as int));
    a + n == b || is_ws(v[a + n])
}

/// `true` for `/connect` (optionally followed by whitespace), `false` otherwise, including
/// `/connectX`.
pub fn parse_connect_command(command: &str) -> (r: bool)
    ensures
        r == bare_command(command@, "/connect"@),
{
    is_bare(command, "/connect")
}

/// `true` for `/models` (optionally followed by whitespace), `false` otherwise, including
/// `/modelsX`.
pub fn parse_models_command(command: &str) -> (r: bool)
    ensures
        r == bare_command(command@, "/models"@),
{
    is_bare(command, "/models")
}

/// Parse `/model <id>`: `Some(Some(id))`, `Some(None)` for a bare `/model`, `None` when the
/// command is not `/model`.
pub fn parse_model_command(command: &str) -> (r: Option<Option<&str>>)
    ensures
        match r {
            Some(Some(id)) => model_arg(command@) == Some(Some(id@)),
            Some(None) => model_arg(command@) == Some(None::<Seq<char>>),
            None => model_arg(command@) is None,
        },
{
    let v = chars_of(command);
    proof {
        reveal_strlit("/model");
    }
    if !starts_at(&v, 0, "/model") {
        assert(v@.skip(0) =~= v@);
        return None;
    }
    assert(v@.skip(0) =~= v@);
    let boundary_ok = v.len() == 6 || is_ws(v[6]);
    if !boundary_ok {
        return None;
    }
    assert(command@.skip(6) =~= v@.subrange(6, v.len() as int));
    let (x, y) = trim_range(&v, 6, v.len());
    if x == y {
        Some(None)
    } else {
        Some(Some(command.substring_char(x, y)))
    }
}

/// Parse `/key`: bare → `List`, `/key <provider>` → `Set`, `/key <provider> clear` → `Clear`;
/// `None` when the command is not `/key`.
pub fn parse_key_command(command: &str) -> (r: Option<KeyCommand>)
    ensures
        match r {
            Some(k) => key_command(command@) == Some(k@),
            None => key_command(command@) is None,
        },
{
    let v = chars_of(command);
    proof {
        reveal_strlit("/key");
        reveal_strlit(" clear");
    }
    if !starts_at(&v, 0, "/key") {
        assert(v@.skip(0) =~= v@);
        return None;
    }
    assert(v@.skip(0) =~= v@);
    let boundary_ok = v.len() == 4 || is_ws(v[4]);
    if !boundary_ok {
        return None;
    }
    assert(command@.skip(4) =~= v@.subrange(4, v.len() as int));
    let (x, y) = trim_range(&v, 4, v.len());
    let ghost arg = v@.subrange(x as int, y as int);
    if x == y {
        return Some(KeyCommand::List);
    }
    if y - x >= 6 && starts_at(&v, y - 6, " clear") {
        assert(v@.skip(y - 6).take(6) =~= arg.skip(arg.len() - 6));
        let (p, q) = trim_range(&v, x, y - 6);
        assert(v@.subrange(x as int, y - 6) =~= arg.take(arg.len() - 6));
        if p < q {
            return Some(KeyCommand::Clear(string_of(&slice_chars(&v, p, q))));
        }
    } else {
        if y - x >= 6 {
            assert(v@.skip(y - 6).take(6) =~= arg.skip(arg.len() - 6));
        }
    }
    Some(KeyCommand::Store(string_of(&slice_chars(&v, x, y))))
}

/// Whether `name` is a provider the connect modal offers.
pub fn is_valid_provider(name: &str) -> (r: bool)
    ensures
        r == provider_name(name@),
{
    str_eq(name, "anthropic") || str_eq(name, "openai") || str_eq(name, "gemini") || str_eq(
        name,
        "deepseek",
    ) || str_eq(name, "ollama")
}

/// Map an engine-mode letter to an approval answer while an approval is pending: `a` approves,
/// `d` denies; with nothing pending they are ordinary input.
pub fn engine_approval_key(c: char, pending: bool) -> (r: Option<bool>)
    ensures
        r == (if pending && c == 'a' {
            Some(true)
        } else if pending && c == 'd' {
            Some(false)
        } else {
            None
        }),
{
    if !pending {
        return None;
    }
    match c {
        'a' => Some(true),
        'd' => Some(false),
        _ => None,
    }
}

/// What one receive on the engine's event broadcast produced.
pub enum Received<E> {
    Event(E),
    /// The receiver fell behind and this many events were dropped.
    Lagged(u64),
    Closed,
}

/// One step of the engine-event forwarding loop.
pub enum EngineForward<E> {
    Event(E),
    Dropped(u64),
    Stop,
}

/// Decode one receive: an event is forwarded, a lag continues the loop with a "dropped n events"
/// notice, and only a closed channel ends forwarding.
pub fn engine_forward_step<E>(result: Received<E>) -> (r: EngineForward<E>)
    ensures
        match result {
            Received::Event(e) => r == EngineForward::Event(e),
            Received::Lagged(n) => r == EngineForward::<E>::Dropped(n),
            Received::Closed => r == EngineForward::<E>::Stop,
        },
{
    match result {
        Received::Event(event) => EngineForward::Event(event),
        Received::Lagged(n) => EngineForward::Dropped(n),
        Received::Closed => EngineForward::Stop,
    }
}

} // verus!
