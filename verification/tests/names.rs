//! Names, targets, addresses and origins.

use std::path::Path;

use named_pipe::pipe::path_of;
use named_pipe::{
    fresh_name, origin_of, target_path, Directions, Host, NamedPipeTransport, PipePath, Span,
    System, Unit,
};

fn path(text: &str) -> PipePath {
    PipePath::from_text(text)
}

fn windows() -> Host {
    Host { system: System::Windows, temp_dir: path("C:\\Temp") }
}

fn unix() -> Host {
    Host { system: System::Unix, temp_dir: path("/tmp") }
}

#[test]
fn the_transport_names_itself_and_goes_both_ways() {
    for host in [windows(), unix()] {
        let pipe = NamedPipeTransport::new("orders", &host);
        assert_eq!(pipe.name(), "named-pipe");
        assert_eq!(pipe.directions(), Directions::Both);
        assert!(pipe.claims().is_none(), "one writer at a time is the object");
        assert_eq!(pipe.path(), &path_of("orders", &host));
    }
}

#[test]
fn an_origin_names_the_pipe_on_either_system() {
    assert_eq!(origin_of(&path("\\\\.\\pipe\\orders")), "pipe://./orders");
    assert_eq!(origin_of(&path("/run/xmip/orders")), "pipe:///run/xmip/orders");
    for host in [windows(), unix()] {
        assert_eq!(target_path("pipe:///run/xmip/orders", &host), path("/run/xmip/orders"));
        assert_eq!(target_path("pipe://orders", &host), path_of("orders", &host));
    }
}

#[test]
fn a_bare_name_becomes_the_systems_path_and_a_path_stays() {
    assert_eq!(path_of("orders", &windows()), path("\\\\.\\pipe\\orders"));
    assert_eq!(path_of("orders", &unix()), path("/tmp/orders"));
    assert_eq!(Path::new(&path_of("orders", &unix()).display()), Path::new("/tmp").join("orders"));
    for host in [windows(), unix()] {
        assert_eq!(path_of("/run/xmip/orders", &host), path("/run/xmip/orders"));
        assert_eq!(path_of("\\\\server\\pipe\\orders", &host), path("\\\\server\\pipe\\orders"));
    }
}

#[test]
fn an_entry_of_a_directory_is_what_join_makes_it() {
    for dir in ["", "/", "/tmp", "/tmp/", "tmp", "/var/t m p/", "/tmp//", "/t\u{e4}mp"] {
        for name in ["orders", "", ".", "..", "a b", "\u{e5}\u{1f600}"] {
            let host = Host { system: System::Unix, temp_dir: path(dir) };
            let joined = Path::new(dir).join(name).display().to_string();
            assert_eq!(path_of(name, &host), path(&joined), "{dir:?} {name:?}");
        }
    }
}

#[test]
fn origins_have_forward_slashes_and_one_prefix_less() {
    assert_eq!(origin_of(&path("")), "pipe://./");
    assert_eq!(origin_of(&path("/")), "pipe:///");
    assert_eq!(origin_of(&path("orders")), "pipe://./orders");
    assert_eq!(origin_of(&path("a\\b/c\\")), "pipe://./a/b/c/");
    assert_eq!(origin_of(&path("\\\\server\\pipe\\orders")), "pipe:////server/pipe/orders");
    assert_eq!(origin_of(&path("//./pipe/orders")), "pipe://./orders");
    assert_eq!(origin_of(&path("\\\\.\\pipe\\\\orders")), "pipe:///orders");
    assert_eq!(origin_of(&path("\\\\.\\pipe")), "pipe:////./pipe");
    assert_eq!(origin_of(&path("/tmp/\u{e5}\u{1f600}\\x")), "pipe:///tmp/\u{e5}\u{1f600}/x");
}

#[test]
fn a_target_may_have_its_scheme_or_not() {
    for host in [windows(), unix()] {
        for name in ["orders", "/run/xmip/orders", "\\\\.\\pipe\\orders", "", "pipe:/"] {
            assert_eq!(target_path(&format!("pipe://{name}"), &host), path_of(name, &host));
            assert_eq!(target_path(name, &host), path_of(name, &host));
        }
        assert_eq!(target_path("pipe://pipe://orders", &host), path("pipe://orders"));
        assert_eq!(target_path("PIPE://orders", &host), path("PIPE://orders"));
    }
    assert_eq!(target_path("pipe:", &unix()), path("/tmp/pipe:"));
    assert_eq!(target_path("pipe://./orders", &windows()), path("./orders"));
}

#[test]
fn a_path_given_again_is_the_same_path() {
    for host in [windows(), unix()] {
        for name in ["orders", "", "/run/xmip/orders", "a\\b"] {
            let path = path_of(name, &host);
            assert_eq!(path_of(&path.display(), &host), path);
            assert_eq!(target_path(&path.display(), &host), path);
        }
    }
    let nowhere = Host { system: System::Unix, temp_dir: path("") };
    assert_eq!(path_of("orders", &nowhere), path("orders"));
    assert_eq!(path_of(&path_of("orders", &nowhere).display(), &nowhere), path("orders"));
}

#[test]
fn the_origin_of_a_fifo_leads_back_to_it() {
    for text in ["/run/xmip/orders", "/a", "/", "//./pipes/a"] {
        assert_eq!(target_path(&origin_of(&path(text)), &unix()), path(text));
    }
}

#[test]
fn fresh_names_are_apart() {
    assert_eq!(fresh_name(4711, 1), "xmip-loopback-4711-1");
    assert_eq!(fresh_name(0, 0), "xmip-loopback-0-0");
    assert_eq!(fresh_name(u32::MAX, 10), "xmip-loopback-4294967295-10");
    assert_ne!(fresh_name(1, 11), fresh_name(11, 1));
    assert_ne!(fresh_name(1, 11), fresh_name(1, 1));
}

#[test]
fn each_far_end_has_its_own_address_and_origin() {
    for host in [windows(), unix()] {
        let pair = NamedPipeTransport::loopback(7, 1, Span::from_millis(5000), &host);
        let first = pair.far_end(7, 2, &host);
        let second = pair.far_end(7, 3, &host);
        assert_ne!(first.address, second.address);
        assert_ne!(first.transport.origin(), second.transport.origin());
        assert_ne!(first.transport.path(), pair.path());
        assert_eq!(first.address, first.transport.path().display());
        assert_eq!(&target_path(&first.address, &host), first.transport.path());
        assert!(first.transport.origin().ends_with("xmip-loopback-7-2"));
    }
    let far = NamedPipeTransport::new("orders", &windows()).far_end(7, 2, &windows());
    assert_eq!(far.address, "\\\\.\\pipe\\xmip-loopback-7-2");
    assert_eq!(far.transport.origin(), "pipe://./xmip-loopback-7-2");
}

#[test]
fn a_span_counts_whole_milliseconds() {
    assert_eq!(Span::from_millis(200).as_millis(), 200);
    assert_eq!(Span { nanos: 1_999_999 }.as_millis(), 1);
    assert_eq!(Span { nanos: 999_999 }.as_millis(), 0);
}

#[test]
fn a_directory_that_is_not_unicode_keeps_its_path() {
    let stray = Unit::Stray(7);
    let mut temp_dir = path("/t");
    temp_dir.units.push(stray);
    let host = Host { system: System::Unix, temp_dir: temp_dir.clone() };
    let mut expected = temp_dir;
    expected.units.extend(path("/orders").units);
    assert_eq!(path_of("orders", &host), expected);
    assert_eq!(expected.display(), "/t\u{fffd}/orders");
    assert_eq!(origin_of(&expected), "pipe:///t\u{fffd}/orders");
    let pipe = NamedPipeTransport::new("orders", &host);
    assert_eq!(pipe.path(), &expected);
    let far = pipe.far_end(7, 2, &host);
    assert_eq!(far.address, "/t\u{fffd}/xmip-loopback-7-2");
    assert_ne!(&target_path(&far.address, &host), far.transport.path());
    assert_eq!(far.transport.path().units[2], stray);
}

#[test]
fn a_stray_at_the_end_of_a_directory_is_no_separator() {
    let host = Host {
        system: System::Unix,
        temp_dir: PipePath { units: vec![Unit::Stray(47)] },
    };
    let units = vec![Unit::Stray(47), Unit::Char('/'), Unit::Char('a')];
    assert_eq!(path_of("a", &host), PipePath { units });
}
