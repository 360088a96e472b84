//! Laws of where a pipe is and what it is called, character by character: each
//! says what the path, the target, the origin or the message is for every
//! input.

use vstd::prelude::*;

use crate::failure::{empty_stream_message, no_writer_message, Step};
use crate::host::{Host, HostView, Span, System};
use crate::name::{loopback_name, named_path, origin_uri, pipe_path};
use crate::path::{displayed, path_of_text, PipePath, Unit};
use crate::text::{decimal_digits, digit_char, replaced};

verus! {

/// A path is its pieces, and a host is its system and its directory's pieces.
pub proof fn law_path_and_host_are_their_parts(path: PipePath, host: Host)
    ensures
        path@ == path.units@,
        host@.system == host.system,
        host@.temp_dir == host.temp_dir.units@,
{
}

/// The path that a text is has that text's characters, each in its place.
pub proof fn law_text_is_its_path(text: Seq<char>)
    ensures
        path_of_text(text).len() == text.len(),
        forall|i: int|
            0 <= i < text.len() ==> #[trigger] path_of_text(text)[i] == Unit::Char(text[i]),
{
}

/// A path is displayed piece by piece: a character as it is, anything else as
/// the replacement character.
pub proof fn law_display_goes_piece_by_piece(path: Seq<Unit>)
    ensures
        displayed(path).len() == path.len(),
        forall|i: int| #![trigger displayed(path)[i]]
            0 <= i < path.len() ==> match path[i] {
                Unit::Char(c) => displayed(path)[i] == c,
                Unit::Stray(_) => displayed(path)[i] == '\u{FFFD}',
            },
{
}

/// A name with a separator of either system anywhere in it is a path as it is,
/// on either system.
pub proof fn law_path_is_kept(name: Seq<char>, host: HostView, at: int)
    requires
        0 <= at < name.len(),
        name[at] == '/' || name[at] == '\\',
    ensures
        pipe_path(name, host).len() == name.len(),
        forall|i: int|
            0 <= i < name.len() ==> #[trigger] pipe_path(name, host)[i] == Unit::Char(name[i]),
{
    assert(name.contains(name[at]));
    law_text_is_its_path(name);
}

/// A bare name on Windows stands under `\\.\pipe\`.
pub proof fn law_bare_name_is_a_windows_pipe(name: Seq<char>, host: HostView)
    requires
        forall|i: int| 0 <= i < name.len() ==> #[trigger] name[i] != '/' && name[i] != '\\',
        host.system == System::Windows,
    ensures
        pipe_path(name, host).len() == 9 + name.len(),
        forall|i: int|
            0 <= i < 9 ==> #[trigger] pipe_path(name, host)[i] == Unit::Char(
                "\\\\.\\pipe\\"@[i],
            ),
        forall|i: int|
            0 <= i < name.len() ==> pipe_path(name, host)[9 + i] == Unit::Char(#[trigger] name[i]),
{
    reveal_strlit("\\\\.\\pipe\\");
    let whole = "\\\\.\\pipe\\"@ + name;
    law_text_is_its_path(whole);
    assert forall|i: int| 0 <= i < 9 implies #[trigger] pipe_path(name, host)[i] == Unit::Char(
        "\\\\.\\pipe\\"@[i],
    ) by {
        assert(path_of_text(whole)[i] == Unit::Char(whole[i]));
    }
    assert forall|i: int| 0 <= i < name.len() implies pipe_path(name, host)[9 + i] == Unit::Char(
        #[trigger] name[i],
    ) by {
        assert(path_of_text(whole)[9 + i] == Unit::Char(whole[9 + i]));
    }
}

/// A bare name on Unix is a file in the temporary directory: the path begins
/// with the directory, piece for piece, and ends in the name; between them
/// stands one `/` where the directory does not end in one, and nothing where it
/// does.
pub proof fn law_bare_name_is_in_the_temporary_directory(name: Seq<char>, host: HostView)
    requires
        forall|i: int| 0 <= i < name.len() ==> #[trigger] name[i] != '/' && name[i] != '\\',
        host.system == System::Unix,
        host.temp_dir.len() > 0,
    ensures
        ({
            let path = pipe_path(name, host);
            let dir = host.temp_dir;
            let ends: bool = dir[dir.len() - 1] == Unit::Char('/');
            let start: int = if ends { dir.len() as int } else { dir.len() as int + 1 };
            &&& path.len() == start + name.len()
            &&& forall|i: int| 0 <= i < dir.len() ==> path[i] == #[trigger] dir[i]
            &&& !ends ==> path[dir.len() as int] == Unit::Char('/')
            &&& forall|i: int|
                0 <= i < name.len() ==> path[start + i] == Unit::Char(#[trigger] name[i])
        }),
{
    let path = pipe_path(name, host);
    let dir = host.temp_dir;
    law_text_is_its_path(name);
    let start: int = if dir.last() == Unit::Char('/') { dir.len() as int } else { dir.len() as int + 1 };
    assert forall|i: int| 0 <= i < name.len() implies path[start + i] == Unit::Char(
        #[trigger] name[i],
    ) by {
        assert(path_of_text(name)[i] == Unit::Char(name[i]));
    }
}

/// Where the temporary directory has no name at all, a bare name on Unix is the
/// path.
pub proof fn law_bare_name_in_a_nameless_directory(name: Seq<char>, host: HostView)
    requires
        forall|i: int| 0 <= i < name.len() ==> #[trigger] name[i] != '/' && name[i] != '\\',
        host.system == System::Unix,
        host.temp_dir.len() == 0,
    ensures
        pipe_path(name, host).len() == name.len(),
        forall|i: int|
            0 <= i < name.len() ==> #[trigger] pipe_path(name, host)[i] == Unit::Char(name[i]),
{
    law_text_is_its_path(name);
}

/// A target that begins with `pipe://` names the pipe that the rest of it
/// names, and any other target the pipe of that name.
pub proof fn law_target_names_its_pipe(target: Seq<char>, host: HostView)
    ensures
        target.len() >= 7 && target.take(7) == "pipe://"@ ==> named_path(target, host)
            == pipe_path(target.skip(7), host),
        target.len() < 7 || target.take(7) != "pipe://"@ ==> named_path(target, host)
            == pipe_path(target, host),
{
    reveal_strlit("pipe://");
    if target.len() >= 7 {
        assert(target.take(7) =~= target.subrange(0, 7));
    }
}

/// A target that is `pipe://` and a path names that path, piece for piece, on
/// either system.
pub proof fn law_target_of_a_path(path: Seq<char>, host: HostView, at: int)
    requires
        0 <= at < path.len(),
        path[at] == '/' || path[at] == '\\',
    ensures
        named_path("pipe://"@ + path, host).len() == path.len(),
        forall|i: int|
            0 <= i < path.len() ==> #[trigger] named_path("pipe://"@ + path, host)[i]
                == Unit::Char(path[i]),
{
    reveal_strlit("pipe://");
    let target = "pipe://"@ + path;
    assert(target.take(7) =~= "pipe://"@);
    assert(target.skip(7) =~= path);
    law_target_names_its_pipe(target, host);
    law_path_is_kept(path, host, at);
}

/// The origin of a pipe: take `text`, the path as it is displayed with `/` for
/// every `\`; take off `//./pipe/` where it begins so. The origin is `pipe://`
/// and what is left where that begins with `/`, and `pipe://./` and what is left
/// where it does not.
pub proof fn law_origin_is_the_name(path: Seq<Unit>, text: Seq<char>)
    requires
        text.len() == path.len(),
        forall|i: int| #![trigger text[i]]
            0 <= i < path.len() ==> match path[i] {
                Unit::Char('\\') => text[i] == '/',
                Unit::Char(c) => text[i] == c,
                Unit::Stray(_) => text[i] == '\u{FFFD}',
            },
    ensures
        ({
            let bare: bool = text.len() >= 9 && text.take(9) == "//./pipe/"@;
            let name = if bare { text.skip(9) } else { text };
            &&& name.len() > 0 && name[0] == '/' ==> origin_uri(path) == "pipe://"@ + name
            &&& name.len() == 0 || name[0] != '/' ==> origin_uri(path) == "pipe://./"@ + name
        }),
{
    reveal_strlit("//./pipe/");
    let shown = replaced(displayed(path), '\\', '/');
    assert(shown.len() == text.len());
    assert forall|i: int| 0 <= i < text.len() implies shown[i] == text[i] by {
        assert(displayed(path)[i] == path[i].shown());
    }
    assert(shown =~= text);
    if text.len() >= 9 {
        assert(text.take(9) =~= text.subrange(0, 9));
    }
}

/// A number is written in decimal: its last digit is its remainder by ten, and
/// the digits before that are the number's tenth; a number below ten has one
/// digit.
pub proof fn law_decimal_is_positional(n: nat)
    ensures
        decimal_digits(n).len() >= 1,
        decimal_digits(n).last() as nat == 48 + n % 10,
        n < 10 ==> decimal_digits(n).len() == 1,
        n >= 10 ==> decimal_digits(n).drop_last() == decimal_digits(n / 10),
{
    let d = n % 10;
    assert(digit_char(d) as nat == 48 + d);
    if n >= 10 {
        assert(decimal_digits(n).drop_last() =~= decimal_digits(n / 10));
    }
}

/// A loopback pipe is called `xmip-loopback-`, the process and the ticket, with
/// a `-` between the two numbers.
pub proof fn law_loopback_name_shows_process_and_ticket(process: u32, ticket: u32)
    ensures
        ({
            let name = loopback_name(process, ticket);
            let p = decimal_digits(process as nat);
            let t = decimal_digits(ticket as nat);
            &&& name.len() == 14 + p.len() + 1 + t.len()
            &&& name.take(14) == "xmip-loopback-"@
            &&& name.subrange(14, 14 + p.len() as int) == p
            &&& name[14 + p.len() as int] == '-'
            &&& name.skip(15 + p.len() as int) == t
        }),
{
    reveal_strlit("xmip-loopback-");
    reveal_strlit("-");
    let name = loopback_name(process, ticket);
    let p = decimal_digits(process as nat);
    let t = decimal_digits(ticket as nat);
    assert(name.take(14) =~= "xmip-loopback-"@);
    assert(name.subrange(14, 14 + p.len() as int) =~= p);
    assert(name.skip(15 + p.len() as int) =~= t);
}

/// Each step is told by its own words.
pub proof fn law_steps_in_words(step: Step)
    ensures
        step == Step::Creating ==> step.words() == "creating the pipe"@,
        step == Step::Accepting ==> step.words() == "accepting a connection"@,
        step == Step::AwaitingWriter ==> step.words() == "waiting for a writer"@,
        step == Step::Settling ==> step.words() == "settling the accepted pipe"@,
        step == Step::Opening ==> step.words() == "opening the pipe"@,
        step == Step::Reading ==> step.words() == "reading the pipe"@,
        step == Step::Connecting ==> step.words() == "connecting to the pipe"@,
        step == Step::Writing ==> step.words() == "writing to the pipe"@,
        step == Step::Flushing ==> step.words() == "flushing the pipe"@,
{
}

/// The whole milliseconds of a length of time are as many as fit into it, and
/// where no writer came the message tells them.
pub proof fn law_no_writer_message_tells_the_timeout(timeout: Span)
    ensures
        timeout.millis() * 1_000_000 <= timeout.nanos < (timeout.millis() + 1) * 1_000_000,
        no_writer_message(timeout) == "no writer came within "@ + decimal_digits(
            timeout.nanos as nat / 1_000_000,
        ) + " ms"@,
        empty_stream_message()
            == "a Stream of nothing: a Windows pipe drops a connection that writes nothing and closes before the reader is waiting"@,
{
}

} // verus!
