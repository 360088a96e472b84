//! Laws of names, targets, addresses and origins.

use vstd::prelude::*;

use crate::host::{HostView, System};
use crate::name::{is_path, loopback_name, named_path, origin_uri, pipe_path};
use crate::path::{displayed, is_text, path_of_text, Unit};
use crate::text::{
    decimal_digits, lemma_decimal_has_digits_only, lemma_decimal_is_injective, replaced,
};

verus! {

/// What a pipe's path begins with, before its bare name.
spec fn path_head(host: HostView) -> Seq<Unit> {
    match host.system {
        System::Windows => path_of_text("\\\\.\\pipe\\"@),
        System::Unix => if host.temp_dir.len() == 0 || host.temp_dir.last() == Unit::Char('/') {
            host.temp_dir
        } else {
            host.temp_dir.push(Unit::Char('/'))
        },
    }
}

/// What a pipe's origin begins with, before its bare name.
pub open spec fn origin_head(host: HostView) -> Seq<char> {
    origin_uri(pipe_path(Seq::empty(), host))
}

/// A path stays as it is: the path of a pipe, where it is Unicode throughout,
/// given as a name, is the path of that pipe again.
pub proof fn law_path_stays(name: Seq<char>, host: HostView)
    requires
        is_text(pipe_path(name, host)),
    ensures
        pipe_path(displayed(pipe_path(name, host)), host) == pipe_path(name, host),
{
    let path = pipe_path(name, host);
    let text = displayed(path);
    lemma_text(name);
    lemma_unicode(path);
    if !is_path(name) {
        match host.system {
            System::Windows => {
                reveal_strlit("\\\\.\\pipe\\");
                assert(text[0] == '\\');
            },
            System::Unix => {
                if host.temp_dir.len() == 0 {
                    assert(path =~= path_of_text(name));
                } else if host.temp_dir.last() == Unit::Char('/') {
                    assert(text[host.temp_dir.len() - 1] == '/');
                } else {
                    assert(text[host.temp_dir.len() as int] == '/');
                }
            },
        }
    }
}

/// `pipe://` may stand before a name or a path, or be left out.
pub proof fn law_scheme_is_optional(name: Seq<char>, host: HostView)
    ensures
        named_path("pipe://"@ + name, host) == pipe_path(name, host),
        !"pipe://"@.is_prefix_of(name) ==> named_path(name, host) == pipe_path(name, host),
{
    let target = "pipe://"@ + name;
    assert(target.take("pipe://"@.len() as int) =~= "pipe://"@);
    assert(target.skip("pipe://"@.len() as int) =~= name);
}

/// The path of a pipe, where it is Unicode throughout, given as a target, names
/// that pipe, unless the path itself begins with `pipe://`.
pub proof fn law_path_is_a_target(name: Seq<char>, host: HostView)
    requires
        is_text(pipe_path(name, host)),
        !"pipe://"@.is_prefix_of(displayed(pipe_path(name, host))),
    ensures
        named_path(displayed(pipe_path(name, host)), host) == pipe_path(name, host),
{
    law_path_stays(name, host);
}

/// An origin is `pipe://` and a name with forward slashes throughout.
pub proof fn law_origin_has_forward_slashes(path: Seq<Unit>)
    ensures
        "pipe://"@.is_prefix_of(origin_uri(path)),
        !origin_uri(path).contains('\\'),
{
    reveal_strlit("pipe://");
    reveal_strlit("pipe://./");
    assert forall|i: int| 0 <= i < origin_uri(path).len() implies origin_uri(path)[i] != '\\' by {};
    assert(origin_uri(path).take(7) =~= "pipe://"@);
}

/// The origin of a FIFO with an absolute path is `pipe://` and that path as it
/// is displayed, and, where the path is Unicode throughout, sending to the
/// origin sends to the FIFO.
pub proof fn law_fifo_origin_is_a_target(path: Seq<Unit>, host: HostView)
    requires
        path.len() > 0 && path[0] == Unit::Char('/'),
        !displayed(path).contains('\\'),
        !"//./pipe/"@.is_prefix_of(displayed(path)),
    ensures
        origin_uri(path) == "pipe://"@ + displayed(path),
        is_text(path) ==> named_path(origin_uri(path), host) == path,
{
    let text = displayed(path);
    assert forall|i: int| 0 <= i < text.len() implies text[i] != '\\' by {
        assert(text.contains(text[i]));
    }
    assert(replaced(text, '\\', '/') =~= text);
    assert(text[0] == '/');
    law_scheme_is_optional(text, host);
    assert(text.contains(text[0]));
    if is_text(path) {
        lemma_unicode(path);
    }
}

/// The origin of the pipe called `name` on Windows is `pipe://./` and the name.
pub proof fn law_windows_origin_shows_the_name(name: Seq<char>, host: HostView)
    requires
        !is_path(name),
        host.system is Windows,
    ensures
        origin_uri(pipe_path(name, host)) == "pipe://./"@ + name,
{
    reveal_strlit("\\\\.\\pipe\\");
    reveal_strlit("//./pipe/");
    lemma_bare(name);
    lemma_text("\\\\.\\pipe\\"@ + name);
    let text = replaced(displayed(pipe_path(name, host)), '\\', '/');
    assert(text =~= "//./pipe/"@ + name);
    assert(text.take(9) =~= "//./pipe/"@);
    assert(text.skip(9) =~= name);
}

/// The origin of the pipe called `name` ends in the name; what stands before
/// it is the host's alone.
pub proof fn law_origin_ends_in_the_name(name: Seq<char>, host: HostView)
    requires
        !is_path(name),
    ensures
        origin_uri(pipe_path(name, host)) == origin_head(host) + name,
{
    let none = Seq::<char>::empty();
    assert(!is_path(none));
    match host.system {
        System::Windows => {
            law_windows_origin_shows_the_name(name, host);
            law_windows_origin_shows_the_name(none, host);
            assert("pipe://./"@ + none =~= "pipe://./"@);
        },
        System::Unix => {
            lemma_unix_origin(name, host);
            lemma_unix_origin(none, host);
            assert(unix_origin_head(host) + none =~= unix_origin_head(host));
        },
    }
}

/// Two bare names are two pipes: they have two paths and two origins.
pub proof fn law_names_are_apart(a: Seq<char>, b: Seq<char>, host: HostView)
    requires
        !is_path(a),
        !is_path(b),
        a != b,
    ensures
        pipe_path(a, host) != pipe_path(b, host),
        origin_uri(pipe_path(a, host)) != origin_uri(pipe_path(b, host)),
{
    lemma_path_head(a, host);
    lemma_path_head(b, host);
    law_origin_ends_in_the_name(a, host);
    law_origin_ends_in_the_name(b, host);
    lemma_text(a);
    lemma_text(b);
    lemma_same_head(path_head(host), path_of_text(a), path_of_text(b));
    lemma_same_head(origin_head(host), a, b);
}

/// No two far ends share a name: neither two of one process nor two of two
/// processes. The name is bare.
pub proof fn law_fresh_names_are_apart(p: u32, t: u32, q: u32, u: u32)
    ensures
        !is_path(loopback_name(p, t)),
        loopback_name(p, t) == loopback_name(q, u) ==> p == q && t == u,
{
    lemma_loopback_name_is_bare(p, t);
    if loopback_name(p, t) == loopback_name(q, u) {
        reveal_strlit("xmip-loopback-");
        reveal_strlit("-");
        let a = decimal_digits(p as nat);
        let b = decimal_digits(q as nat);
        let c = decimal_digits(t as nat);
        let d = decimal_digits(u as nat);
        let x = loopback_name(p, t);
        let y = loopback_name(q, u);
        let m: int = a.len() as int;
        let n: int = b.len() as int;
        assert(x[14 + m] == '-');
        assert(y[14 + n] == '-');
        if m < n {
            lemma_decimal_has_digits_only(q as nat, m);
            assert(y[14 + m] == b[m]);
        } else if n < m {
            lemma_decimal_has_digits_only(p as nat, n);
            assert(x[14 + n] == a[n]);
        }
        assert(x.subrange(14, 14 + m) =~= a);
        assert(y.subrange(14, 14 + n) =~= b);
        assert(x.skip(15 + m) =~= c);
        assert(y.skip(15 + n) =~= d);
        lemma_decimal_is_injective(p as nat, q as nat);
        lemma_decimal_is_injective(t as nat, u as nat);
    }
}

/// Each far end is its own pipe: with another process or another ticket it has
/// another path, another address, which is the path as it is displayed, and
/// another origin.
pub proof fn law_far_ends_are_apart(p: u32, t: u32, q: u32, u: u32, host: HostView)
    requires
        p != q || t != u,
    ensures
        pipe_path(loopback_name(p, t), host) != pipe_path(loopback_name(q, u), host),
        displayed(pipe_path(loopback_name(p, t), host)) != displayed(
            pipe_path(loopback_name(q, u), host),
        ),
        origin_uri(pipe_path(loopback_name(p, t), host)) != origin_uri(
            pipe_path(loopback_name(q, u), host),
        ),
{
    law_fresh_names_are_apart(p, t, q, u);
    law_fresh_names_are_apart(q, u, p, t);
    law_names_are_apart(loopback_name(p, t), loopback_name(q, u), host);
}

/// What is sent to a far end's address, which is its path as it is displayed,
/// goes to the far end's pipe, where the temporary directory is Unicode and does
/// not itself begin with `pipe://`.
pub proof fn law_address_reaches_its_far_end(process: u32, ticket: u32, host: HostView)
    requires
        host.system is Unix ==> is_text(host.temp_dir),
        host.system is Unix ==> !"pipe://"@.is_prefix_of(displayed(host.temp_dir)),
    ensures
        named_path(displayed(pipe_path(loopback_name(process, ticket), host)), host) == pipe_path(
            loopback_name(process, ticket),
            host,
        ),
{
    let name = loopback_name(process, ticket);
    let path = pipe_path(name, host);
    let text = displayed(path);
    let head = path_head(host);
    lemma_loopback_name_is_bare(process, ticket);
    lemma_bare(name);
    lemma_text(name);
    lemma_path_head(name, host);
    lemma_displayed_head(name, host);
    reveal_strlit("pipe://");
    if "pipe://"@.is_prefix_of(text) {
        assert forall|i: int| 0 <= i < 7 implies text[i] == "pipe://"@[i] by {
            assert(text.subrange(0, 7)[i] == text[i]);
        }
        assert(text[0] == 'p' && text[5] == '/' && text[6] == '/');
        match host.system {
            System::Windows => {
                reveal_strlit("\\\\.\\pipe\\");
            },
            System::Unix => {
                let temp = host.temp_dir;
                assert(head.len() >= 7);
                assert(temp.len() >= 7) by {
                    if temp.len() == 6 {
                        assert(temp[5].shown() == text[5]);
                        assert(temp[5] is Char);
                    }
                }
                assert(displayed(temp).take(7) =~= "pipe://"@) by {
                    assert forall|i: int| 0 <= i < 7 implies displayed(temp)[i] == "pipe://"@[i] by {
                        assert(displayed(temp)[i] == text[i]);
                    }
                }
                assert(false);
            },
        }
    }
    assert forall|i: int| 0 <= i < path.len() implies #[trigger] path[i] is Char by {
        if i >= head.len() {
            assert(path[i] == path_of_text(name)[i - head.len()]);
        }
    }
    law_path_is_a_target(name, host);
}

/// Text is displayed as it is.
proof fn lemma_text(text: Seq<char>)
    ensures
        displayed(path_of_text(text)) == text,
        is_text(path_of_text(text)),
{
    assert(displayed(path_of_text(text)) =~= text);
}

/// A path that is Unicode throughout is the text it is displayed by.
proof fn lemma_unicode(path: Seq<Unit>)
    requires
        is_text(path),
    ensures
        path_of_text(displayed(path)) == path,
{
    assert(path_of_text(displayed(path)) =~= path);
}

/// A pipe's path is displayed by what its head is displayed by, and its name.
proof fn lemma_displayed_head(name: Seq<char>, host: HostView)
    requires
        !is_path(name),
    ensures
        displayed(pipe_path(name, host)) == displayed(path_head(host)) + name,
{
    lemma_path_head(name, host);
    assert(displayed(pipe_path(name, host)) =~= displayed(path_head(host)) + name);
}

/// A bare name holds no separator.
proof fn lemma_bare(name: Seq<char>)
    requires
        !is_path(name),
    ensures
        forall|i: int| 0 <= i < name.len() ==> name[i] != '/' && name[i] != '\\',
{
    assert forall|i: int| 0 <= i < name.len() implies name[i] != '/' && name[i] != '\\' by {
        assert(name.contains(name[i]));
    }
}

proof fn lemma_path_head(name: Seq<char>, host: HostView)
    requires
        !is_path(name),
    ensures
        pipe_path(name, host) == path_head(host) + path_of_text(name),
{
    assert(pipe_path(name, host) =~= path_head(host) + path_of_text(name));
}

proof fn lemma_same_head<A>(head: Seq<A>, a: Seq<A>, b: Seq<A>)
    requires
        a != b,
    ensures
        head + a != head + b,
{
    if head + a == head + b {
        assert((head + a).skip(head.len() as int) =~= a);
        assert((head + b).skip(head.len() as int) =~= b);
    }
}

proof fn lemma_loopback_name_is_bare(process: u32, ticket: u32)
    ensures
        !is_path(loopback_name(process, ticket)),
{
    reveal_strlit("xmip-loopback-");
    reveal_strlit("-");
    let name = loopback_name(process, ticket);
    let a = decimal_digits(process as nat);
    let b = decimal_digits(ticket as nat);
    assert forall|i: int| 0 <= i < name.len() implies name[i] != '/' && name[i] != '\\' by {
        if 14 <= i < 14 + a.len() {
            lemma_decimal_has_digits_only(process as nat, i - 14);
            assert(name[i] == a[i - 14]);
        } else if i > 14 + a.len() {
            lemma_decimal_has_digits_only(ticket as nat, i - 15 - a.len());
            assert(name[i] == b[i - 15 - a.len()]);
        }
    }
}

/// What the origin of a FIFO in the temporary directory begins with.
spec fn unix_origin_head(host: HostView) -> Seq<char> {
    let text = replaced(displayed(path_head(host)), '\\', '/');
    let rest = if "//./pipe/"@.is_prefix_of(text) {
        text.skip("//./pipe/"@.len() as int)
    } else {
        text
    };
    if rest.len() > 0 && rest[0] == '/' {
        "pipe://"@ + rest
    } else {
        "pipe://./"@ + rest
    }
}

proof fn lemma_unix_origin(name: Seq<char>, host: HostView)
    requires
        !is_path(name),
        host.system is Unix,
    ensures
        origin_uri(pipe_path(name, host)) == unix_origin_head(host) + name,
{
    reveal_strlit("//./pipe/");
    lemma_bare(name);
    lemma_displayed_head(name, host);
    let head = replaced(displayed(path_head(host)), '\\', '/');
    let text = replaced(displayed(pipe_path(name, host)), '\\', '/');
    assert(text =~= head + name);
    let prefix = "//./pipe/"@;
    if prefix.is_prefix_of(text) {
        assert(text[8] == prefix[8]);
        assert(head.len() >= 9);
        assert(head.take(9) =~= prefix) by {
            assert forall|i: int| 0 <= i < 9 implies head[i] == prefix[i] by {
                assert(text[i] == prefix[i]);
            }
        }
        assert(text.skip(9) =~= head.skip(9) + name);
    } else if prefix.is_prefix_of(head) {
        assert(text.take(9) =~= prefix) by {
            assert forall|i: int| 0 <= i < 9 implies text[i] == prefix[i] by {
                assert(head[i] == prefix[i]);
            }
        }
    }
    assert(origin_uri(pipe_path(name, host)) =~= unix_origin_head(host) + name);
}

} // verus!
