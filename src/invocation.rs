//! Argument vectors of the external tool, one per operation.

use vstd::prelude::*;
use crate::decimal::{decimal, lemma_decimal_is_digits, port_text};

verus! {

/// A process to launch: the program and its arguments, in order.
pub struct Invocation {
    pub program: String,
    pub args: Vec<String>,
}

/// The program that launches the tool.
pub open spec fn tool_program() -> Seq<char> {
    "npm"@
}

/// The arguments that make the launcher run the tool and hand it the rest.
pub open spec fn launcher_args() -> Seq<Seq<char>> {
    seq!["run"@, "dev"@, "--"@]
}

/// The arguments that name the service the tool talks to.
pub open spec fn endpoint_args(host: Seq<char>, port: u16) -> Seq<Seq<char>> {
    seq!["--host"@, host, "--port"@, decimal(port as nat)]
}

/// The arguments of an export: slides for format `pptx`, otherwise the
/// export subcommand, with `--json` only for format `json`. Any other format
/// takes the plain export.
pub open spec fn export_args(id: Seq<char>, format: Seq<char>, host: Seq<char>, port: u16) -> Seq<
    Seq<char>,
> {
    if format == "pptx"@ {
        launcher_args() + seq!["pptx"@, id] + endpoint_args(host, port)
    } else if format == "json"@ {
        launcher_args() + seq!["export"@, id, "--json"@] + endpoint_args(host, port)
    } else {
        launcher_args() + seq!["export"@, id] + endpoint_args(host, port)
    }
}

/// The arguments that list the playlists, as JSON.
pub open spec fn playlists_args(host: Seq<char>, port: u16) -> Seq<Seq<char>> {
    launcher_args() + seq!["playlists"@, "--json"@] + endpoint_args(host, port)
}

/// The arguments that ask the tool for the state of its connection.
pub open spec fn status_args(host: Seq<char>, port: u16) -> Seq<Seq<char>> {
    launcher_args() + seq!["status"@] + endpoint_args(host, port)
}

fn push_text(args: &mut Vec<String>, s: &str)
    ensures
        final(args).deep_view() == old(args).deep_view().push(s@),
{
    args.push(String::from_str(s));
    assert(final(args).deep_view() =~= old(args).deep_view().push(s@));
}

fn push_owned(args: &mut Vec<String>, s: String)
    ensures
        final(args).deep_view() == old(args).deep_view().push(s@),
{
    let ghost v = s@;
    args.push(s);
    assert(final(args).deep_view() =~= old(args).deep_view().push(v));
}

fn launcher_vec() -> (r: Vec<String>)
    ensures
        r.deep_view() == launcher_args(),
{
    let mut args: Vec<String> = Vec::new();
    assert(args.deep_view() =~= Seq::<Seq<char>>::empty());
    push_text(&mut args, "run");
    push_text(&mut args, "dev");
    push_text(&mut args, "--");
    assert(args.deep_view() =~= launcher_args());
    args
}

fn push_endpoint(args: &mut Vec<String>, host: String, port: u16)
    ensures
        final(args).deep_view() == old(args).deep_view() + endpoint_args(host@, port),
{
    let ghost h = host@;
    push_text(args, "--host");
    push_owned(args, host);
    push_text(args, "--port");
    push_owned(args, port_text(port));
    assert(final(args).deep_view() =~= old(args).deep_view() + endpoint_args(h, port));
}

/// The invocation that exports a playlist in the given format.
pub fn export_playlist_invocation(
    playlist_uuid: String,
    export_format: String,
    host: String,
    port: u16,
) -> (r: Invocation)
    ensures
        r.program@ == tool_program(),
        r.args.deep_view() == export_args(playlist_uuid@, export_format@, host@, port),
{
    let ghost (id, h) = (playlist_uuid@, host@);
    let mut args = launcher_vec();
    let ghost start = args.deep_view();
    if export_format == String::from_str("pptx") {
        push_text(&mut args, "pptx");
        push_owned(&mut args, playlist_uuid);
        assert(args.deep_view() =~= start + seq!["pptx"@, id]);
    } else if export_format == String::from_str("json") {
        push_text(&mut args, "export");
        push_owned(&mut args, playlist_uuid);
        push_text(&mut args, "--json");
        assert(args.deep_view() =~= start + seq!["export"@, id, "--json"@]);
    } else {
        push_text(&mut args, "export");
        push_owned(&mut args, playlist_uuid);
        assert(args.deep_view() =~= start + seq!["export"@, id]);
    }
    push_endpoint(&mut args, host, port);
    Invocation { program: String::from_str("npm"), args }
}

/// The invocation that lists the playlists of the service.
pub fn get_playlists_invocation(host: String, port: u16) -> (r: Invocation)
    ensures
        r.program@ == tool_program(),
        r.args.deep_view() == playlists_args(host@, port),
{
    let mut args = launcher_vec();
    let ghost start = args.deep_view();
    push_text(&mut args, "playlists");
    push_text(&mut args, "--json");
    assert(args.deep_view() =~= start + seq!["playlists"@, "--json"@]);
    push_endpoint(&mut args, host, port);
    Invocation { program: String::from_str("npm"), args }
}

/// The invocation that checks the connection to the service.
pub fn check_connection_invocation(host: String, port: u16) -> (r: Invocation)
    ensures
        r.program@ == tool_program(),
        r.args.deep_view() == status_args(host@, port),
{
    let mut args = launcher_vec();
    let ghost start = args.deep_view();
    push_text(&mut args, "status");
    assert(args.deep_view() =~= start + seq!["status"@]);
    push_endpoint(&mut args, host, port);
    Invocation { program: String::from_str("npm"), args }
}


/// An export in format `pptx` hands the tool `pptx` and the playlist right
/// after the launcher, then only the endpoint: no `--json` flag is added, so
/// a `--json` token can only be the caller's own playlist or host.
pub proof fn lemma_pptx_export_args(id: Seq<char>, host: Seq<char>, port: u16)
    ensures
        ({
            let a = export_args(id, "pptx"@, host, port);
            &&& a.len() == 9
            &&& a.subrange(0, 3) == launcher_args()
            &&& a[3] == "pptx"@
            &&& a[4] == id
            &&& a.subrange(5, 9) == endpoint_args(host, port)
            &&& forall|i: int|
                0 <= i < 9 && #[trigger] a[i] == "--json"@ ==> (i == 4 && id == "--json"@) || (i
                    == 6 && host == "--json"@)
        }),
{
    reveal_strlit("run");
    reveal_strlit("dev");
    reveal_strlit("--");
    reveal_strlit("pptx");
    reveal_strlit("--host");
    reveal_strlit("--port");
    reveal_strlit("--json");
    let a = export_args(id, "pptx"@, host, port);
    assert(a.subrange(0, 3) =~= launcher_args());
    assert(a.subrange(5, 9) =~= endpoint_args(host, port));
    lemma_decimal_is_digits(port as nat);
    assert forall|i: int| 0 <= i < 9 && #[trigger] a[i] == "--json"@ implies (i == 4 && id
        == "--json"@) || (i == 6 && host == "--json"@) by {
        if i == 8 {
            assert(a[8][0] != '-');
        } else if i != 4 && i != 6 {
            assert(a[i].len() != 6 || a[i][0] != '-' || a[i][2] != 'j');
        }
    }
}

/// An export in format `json` hands the tool `export`, the playlist and the
/// `--json` flag after the launcher, then the endpoint.
pub proof fn lemma_json_export_args(id: Seq<char>, host: Seq<char>, port: u16)
    ensures
        export_args(id, "json"@, host, port) == launcher_args() + seq!["export"@, id, "--json"@]
            + endpoint_args(host, port),
        export_args(id, "json"@, host, port)[3] == "export"@,
        export_args(id, "json"@, host, port)[4] == id,
        export_args(id, "json"@, host, port)[5] == "--json"@,
{
    reveal_strlit("json");
    reveal_strlit("pptx");
    assert("json"@[0] != "pptx"@[0]);
}

/// Any format other than `pptx` and `json`, the empty one included, gives
/// the arguments of format `json` without the `--json` flag.
pub proof fn lemma_other_format_export_args(
    id: Seq<char>,
    format: Seq<char>,
    host: Seq<char>,
    port: u16,
)
    requires
        format != "pptx"@,
        format != "json"@,
    ensures
        export_args(id, format, host, port) == export_args(id, "json"@, host, port).remove(5),
{
    lemma_json_export_args(id, host, port);
    assert(export_args(id, format, host, port) =~= export_args(id, "json"@, host, port).remove(
        5,
    ));
}

/// The list and status arguments are fixed: two calls agree on every token
/// but the host and the port, which are the caller's.
pub proof fn lemma_fixed_args(h1: Seq<char>, p1: u16, h2: Seq<char>, p2: u16)
    ensures
        playlists_args(h1, p1).len() == 9,
        playlists_args(h1, p1)[6] == h1,
        playlists_args(h1, p1)[8] == decimal(p1 as nat),
        forall|i: int|
            0 <= i < 9 && i != 6 && i != 8 ==> #[trigger] playlists_args(h1, p1)[i]
                == playlists_args(h2, p2)[i],
        status_args(h1, p1).len() == 8,
        status_args(h1, p1)[5] == h1,
        status_args(h1, p1)[7] == decimal(p1 as nat),
        forall|i: int|
            0 <= i < 8 && i != 5 && i != 7 ==> #[trigger] status_args(h1, p1)[i] == status_args(
                h2,
                p2,
            )[i],
{
}

} // verus!
