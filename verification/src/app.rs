//! The command line of the tool, and the plan of work it stands for.
//!
//! The types mirror the options and subcommands; [`plan`] settles which
//! source is read, what is made of it and where it goes.

use vstd::prelude::*;
use crate::error::Error;
use crate::generate::{
    all_valid,
    iproute2_route_script,
    iproute2_rule_script,
    iproute2route,
    iproute2rule,
    lemma_route_delete_mirrors_add,
    nftables,
    nftables_script,
    route_script_lines,
    script_block,
};
use crate::address::cidr_text;
use crate::geoip::{cidr_views, Cidr, CidrView};
use crate::systemd::{
    generate_iproute2_route,
    generate_iproute2_rule,
    generate_nftables,
    iproute2_route_unit,
    iproute2_rule_unit,
    nftables_unit,
};

verus! {

/// The whole command line.
pub struct App {
    pub command: Option<Commands>,
    pub source_group: SourceGroup,
    /// Country code.
    pub code: Option<String>,
    /// Output path.
    pub output: Option<String>,
}

/// Where the list comes from: exactly one of a local file and a URL.
pub struct SourceGroup {
    /// Path of the file to read.
    pub file: Option<String>,
    /// URL of the file to download.
    pub url: Option<String>,
}

/// The subcommands.
pub enum Commands {
    /// Generate a script, e.g. for nftables.
    Generate { generate_command: GenerateCommands },
    /// Convert from one format to another, into `output`.
    Convert { convert_command: ConvertCommands, output: String },
    /// Generate a systemd service unit.
    Systemd { generate_command: GenerateCommands },
}

/// What to generate.
pub enum GenerateCommands {
    /// An nftables script that fills `ipv4set` and `ipv6set` of `table`.
    Nftables { table: String, ipv4set: String, ipv6set: String },
    /// An iproute2 script.
    Iproute2 { iproute2_command: Iproute2Commands },
}

/// Which iproute2 script to generate.
pub enum Iproute2Commands {
    /// Routing policy rules that look up `table`.
    Rule { delete: bool, table: String },
    /// Routes in `table` through the gateways on device `dev`.
    Route {
        delete: bool,
        table: String,
        ipv4_gateway: String,
        ipv6_gateway: String,
        dev: String,
    },
}

/// The format to convert into.
pub enum ConvertCommands {
    /// A sing-box rule-set.
    Srs {},
    /// A *ray geoip list.
    Ray {},
}

/// Where the list is read from.
pub enum Source {
    Url(String),
    File(String),
}

/// What is made.
pub enum Work {
    /// A systemd unit for the generator; it reads nothing now.
    Systemd(GenerateCommands),
    /// A script from the blocks read.
    Generate(GenerateCommands),
    /// The blocks read, in another format.
    Convert(ConvertCommands),
}

/// The plan of a run.
pub struct Plan {
    pub work: Work,
    pub source: Source,
    /// The country code; empty when none is given.
    pub code: String,
    /// Where the result is written; empty for standard output.
    pub output: String,
}

/// The characters of an optional argument; nothing when it is absent.
pub open spec fn given_text(o: Option<String>) -> Seq<char> {
    match o {
        Some(s) => s@,
        None => Seq::empty(),
    }
}

/// The command line asks for a systemd unit.
pub open spec fn is_systemd(app: App) -> bool {
    app.command matches Some(Commands::Systemd { .. })
}

/// The generator with its delete switch off: a unit adds what it manages.
pub open spec fn without_delete(g: GenerateCommands) -> GenerateCommands {
    match g {
        GenerateCommands::Iproute2 { iproute2_command: Iproute2Commands::Rule { delete, table } } => {
            GenerateCommands::Iproute2 {
                iproute2_command: Iproute2Commands::Rule { delete: false, table },
            }
        },
        GenerateCommands::Iproute2 {
            iproute2_command: Iproute2Commands::Route {
                delete,
                table,
                ipv4_gateway,
                ipv6_gateway,
                dev,
            },
        } => GenerateCommands::Iproute2 {
            iproute2_command: Iproute2Commands::Route {
                delete: false,
                table,
                ipv4_gateway,
                ipv6_gateway,
                dev,
            },
        },
        other => other,
    }
}

fn text_or_empty(o: Option<String>) -> (r: String)
    ensures
        r@ == given_text(o),
{
    match o {
        Some(s) => s,
        None => String::new(),
    }
}

fn clear_delete(g: GenerateCommands) -> (r: GenerateCommands)
    ensures
        r == without_delete(g),
{
    match g {
        GenerateCommands::Iproute2 { iproute2_command: Iproute2Commands::Rule { delete, table } } => {
            GenerateCommands::Iproute2 {
                iproute2_command: Iproute2Commands::Rule { delete: false, table },
            }
        },
        GenerateCommands::Iproute2 {
            iproute2_command: Iproute2Commands::Route {
                delete,
                table,
                ipv4_gateway,
                ipv6_gateway,
                dev,
            },
        } => GenerateCommands::Iproute2 {
            iproute2_command: Iproute2Commands::Route {
                delete: false,
                table,
                ipv4_gateway,
                ipv6_gateway,
                dev,
            },
        },
        other => other,
    }
}

/// The plan of a run of the command line `app`.
///
/// A systemd unit is made from the URL (refused with [`Error::MissingUrl`]
/// when there is none, or it is empty), with its delete switch off. Otherwise
/// the list is downloaded from the URL when one is given and read from the
/// file if not. The code defaults to empty; the output is the path given to
/// `convert`, else the global output path, else empty (standard output).
pub fn plan(app: App) -> (r: Result<Plan, Error>)
    requires
        app.command is Some,
        is_systemd(app) || given_text(app.source_group.url).len() > 0
            || app.source_group.file is Some,
    ensures
        match r {
            Err(e) => is_systemd(app) && given_text(app.source_group.url).len() == 0 && e
                == Error::MissingUrl,
            Ok(p) => {
                &&& !(is_systemd(app) && given_text(app.source_group.url).len() == 0)
                &&& p.code@ == given_text(app.code)
                &&& p.output@ == match app.command {
                    Some(Commands::Convert { output, .. }) => output@,
                    _ => given_text(app.output),
                }
                &&& match app.command {
                    Some(Commands::Generate { generate_command }) => p.work == Work::Generate(
                        generate_command,
                    ),
                    Some(Commands::Convert { convert_command, .. }) => p.work == Work::Convert(
                        convert_command,
                    ),
                    Some(Commands::Systemd { generate_command }) => p.work == Work::Systemd(
                        without_delete(generate_command),
                    ),
                    None => false,
                }
                &&& if is_systemd(app) || given_text(app.source_group.url).len() > 0 {
                    p.source is Url && p.source->Url_0@ == given_text(app.source_group.url)
                } else {
                    app.source_group.file == Some(p.source->File_0) && p.source is File
                }
            },
        },
{
    let App { command, source_group, code, output } = app;
    let code = text_or_empty(code);
    let mut output = text_or_empty(output);
    let mut systemd = false;
    let work = match command {
        Some(Commands::Generate { generate_command }) => Work::Generate(generate_command),
        Some(Commands::Convert { convert_command, output: o }) => {
            output = o;
            Work::Convert(convert_command)
        },
        Some(Commands::Systemd { generate_command }) => {
            systemd = true;
            Work::Systemd(clear_delete(generate_command))
        },
        None => {
            // excluded by the precondition
            proof {
                assert(false);
            }
            return Err(Error::MissingUrl);
        },
    };
    let SourceGroup { file, url } = source_group;
    let url = text_or_empty(url);
    let source = if systemd || !url.as_str().is_empty() {
        if url.as_str().is_empty() {
            return Err(Error::MissingUrl);
        }
        Source::Url(url)
    } else {
        match file {
            Some(f) => Source::File(f),
            None => {
                // excluded by the precondition
                proof {
                    assert(false);
                }
                return Err(Error::MissingUrl);
            },
        }
    };
    Ok(Plan { work, source, code, output })
}

/// The program a generator's script is fed to: `nft` for nftables, `ip` for
/// iproute2.
pub open spec fn tool_name(g: GenerateCommands) -> Seq<char> {
    match g {
        GenerateCommands::Nftables { .. } => "nft"@,
        GenerateCommands::Iproute2 { .. } => "ip"@,
    }
}

/// The name of the program that a generator's script is fed to.
pub fn tool_for(g: &GenerateCommands) -> (r: &'static str)
    ensures
        r@ == tool_name(*g),
{
    match g {
        GenerateCommands::Nftables { .. } => "nft",
        GenerateCommands::Iproute2 { .. } => "ip",
    }
}

/// The script of a generator for the blocks, or `None` when some block has
/// no text form.
pub open spec fn script_text(g: GenerateCommands, v4: Seq<CidrView>, v6: Seq<CidrView>) -> Option<
    Seq<char>,
> {
    if all_valid(v4) && all_valid(v6) {
        Some(
            match g {
                GenerateCommands::Nftables { table, ipv4set, ipv6set } => nftables_script(
                    v4,
                    v6,
                    table@,
                    ipv4set@,
                    ipv6set@,
                ),
                GenerateCommands::Iproute2 {
                    iproute2_command: Iproute2Commands::Rule { delete, table },
                } => iproute2_rule_script(v4, v6, delete, table@),
                GenerateCommands::Iproute2 {
                    iproute2_command: Iproute2Commands::Route {
                        delete,
                        table,
                        ipv4_gateway,
                        ipv6_gateway,
                        dev,
                    },
                } => iproute2_route_script(
                    v4,
                    v6,
                    delete,
                    table@,
                    ipv4_gateway@,
                    ipv6_gateway@,
                    dev@,
                ),
            },
        )
    } else {
        None
    }
}

/// The script that generator `g` makes of the blocks.
///
/// Fails with [`Error::InvalidIpLength`] exactly when some block has no text
/// form.
pub fn script_for(g: &GenerateCommands, cidr_pair: (Vec<Cidr>, Vec<Cidr>)) -> (r: Result<
    String,
    Error,
>)
    ensures
        match r {
            Ok(s) => script_text(*g, cidr_views(cidr_pair.0@), cidr_views(cidr_pair.1@)) == Some(
                s@,
            ),
            Err(e) => script_text(*g, cidr_views(cidr_pair.0@), cidr_views(cidr_pair.1@)) is None
                && e == Error::InvalidIpLength,
        },
{
    match g {
        GenerateCommands::Nftables { table, ipv4set, ipv6set } => nftables(
            cidr_pair,
            table.as_str(),
            ipv4set.as_str(),
            ipv6set.as_str(),
        ),
        GenerateCommands::Iproute2 { iproute2_command: Iproute2Commands::Rule { delete, table } } => {
            iproute2rule(cidr_pair, *delete, table.as_str())
        },
        GenerateCommands::Iproute2 {
            iproute2_command: Iproute2Commands::Route {
                delete,
                table,
                ipv4_gateway,
                ipv6_gateway,
                dev,
            },
        } => iproute2route(
            cidr_pair,
            *delete,
            table.as_str(),
            ipv4_gateway.as_str(),
            ipv6_gateway.as_str(),
            dev.as_str(),
        ),
    }
}

/// The systemd unit of a generator, given the path of its tool.
pub open spec fn unit_text(
    g: GenerateCommands,
    tool_exe: Seq<char>,
    current_exe: Seq<char>,
    url: Seq<char>,
    code: Seq<char>,
) -> Seq<char> {
    match g {
        GenerateCommands::Nftables { table, ipv4set, ipv6set } => nftables_unit(
            tool_exe,
            current_exe,
            url,
            code,
            table@,
            ipv4set@,
            ipv6set@,
        ),
        GenerateCommands::Iproute2 { iproute2_command: Iproute2Commands::Rule { table, .. } } => {
            iproute2_rule_unit(tool_exe, current_exe, url, code, table@)
        },
        GenerateCommands::Iproute2 {
            iproute2_command: Iproute2Commands::Route {
                table,
                ipv4_gateway,
                ipv6_gateway,
                dev,
                ..
            },
        } => iproute2_route_unit(
            tool_exe,
            current_exe,
            url,
            code,
            table@,
            ipv4_gateway@,
            ipv6_gateway@,
            dev@,
        ),
    }
}

/// The systemd unit for generator `g`, whose script is fed to the program at
/// `tool_exe` (see [`tool_for`]).
pub fn unit_for(g: &GenerateCommands, tool_exe: &str, current_exe: &str, url: &str, code: &str) -> (r:
    String)
    ensures
        r@ == unit_text(*g, tool_exe@, current_exe@, url@, code@),
{
    match g {
        GenerateCommands::Nftables { table, ipv4set, ipv6set } => generate_nftables(
            tool_exe,
            current_exe,
            url,
            code,
            table.as_str(),
            ipv4set.as_str(),
            ipv6set.as_str(),
        ),
        GenerateCommands::Iproute2 { iproute2_command: Iproute2Commands::Rule { table, .. } } => {
            generate_iproute2_rule(tool_exe, current_exe, url, code, table.as_str())
        },
        GenerateCommands::Iproute2 {
            iproute2_command: Iproute2Commands::Route {
                table,
                ipv4_gateway,
                ipv6_gateway,
                dev,
                ..
            },
        } => generate_iproute2_route(
            tool_exe,
            current_exe,
            url,
            code,
            table.as_str(),
            ipv4_gateway.as_str(),
            ipv6_gateway.as_str(),
            dev.as_str(),
        ),
    }
}


/// The generator of a planned systemd unit never deletes: a unit's start adds
/// the rules or routes it manages.
pub proof fn lemma_systemd_never_deletes(g: GenerateCommands)
    ensures
        match without_delete(g) {
            GenerateCommands::Iproute2 {
                iproute2_command: Iproute2Commands::Rule { delete, .. },
            } => !delete,
            GenerateCommands::Iproute2 {
                iproute2_command: Iproute2Commands::Route { delete, .. },
            } => !delete,
            GenerateCommands::Nftables { .. } => true,
        },
{
}


/// Each generator gets its own script: when every block has a text form, the
/// nftables generator gives the nftables script of its table and sets, the
/// rule generator the routing policy rule script of its switch and table, and
/// the route generator the route script of its switch, table, gateways and
/// device; otherwise there is none.
pub proof fn lemma_script_for_dispatch(g: GenerateCommands, v4: Seq<CidrView>, v6: Seq<CidrView>)
    ensures
        !(all_valid(v4) && all_valid(v6)) ==> script_text(g, v4, v6) is None,
        all_valid(v4) && all_valid(v6) ==> match g {
            GenerateCommands::Nftables { table, ipv4set, ipv6set } => script_text(g, v4, v6)
                == Some(nftables_script(v4, v6, table@, ipv4set@, ipv6set@)),
            GenerateCommands::Iproute2 {
                iproute2_command: Iproute2Commands::Rule { delete, table },
            } => script_text(g, v4, v6) == Some(iproute2_rule_script(v4, v6, delete, table@)),
            GenerateCommands::Iproute2 {
                iproute2_command: Iproute2Commands::Route {
                    delete,
                    table,
                    ipv4_gateway,
                    ipv6_gateway,
                    dev,
                },
            } => script_text(g, v4, v6) == Some(
                iproute2_route_script(
                    v4,
                    v6,
                    delete,
                    table@,
                    ipv4_gateway@,
                    ipv6_gateway@,
                    dev@,
                ),
            ),
        },
{
}


/// The script of a route generator is one line per block, the IPv4 blocks
/// first: `ip route ` (`ip -6 route ` for an IPv6 block), the verb `add` or
/// `delete`, ` table <table> <block> via <gateway> dev <dev>` with the IPv4
/// gateway for IPv4 blocks and the IPv6 gateway for IPv6 blocks, and a
/// newline.
pub proof fn lemma_route_generator_lines(
    delete: bool,
    table: String,
    ipv4_gateway: String,
    ipv6_gateway: String,
    dev: String,
    v4: Seq<CidrView>,
    v6: Seq<CidrView>,
)
    requires
        all_valid(v4),
        all_valid(v6),
    ensures
        ({
            let g = GenerateCommands::Iproute2 {
                iproute2_command: Iproute2Commands::Route {
                    delete,
                    table,
                    ipv4_gateway,
                    ipv6_gateway,
                    dev,
                },
            };
            let lines = route_script_lines(
                v4,
                v6,
                delete,
                table@,
                ipv4_gateway@,
                ipv6_gateway@,
                dev@,
            );
            &&& script_text(g, v4, v6) == Some(lines.flatten())
            &&& lines.len() == v4.len() + v6.len()
            &&& forall|i: int|
                0 <= i < lines.len() ==> #[trigger] lines[i] == (if i < v4.len() {
                    "ip route "@
                } else {
                    "ip -6 route "@
                }) + (if delete {
                    "delete"@
                } else {
                    "add"@
                }) + " table "@ + table@ + " "@ + cidr_text(script_block(v4, v6, i)) + " via "@
                    + (if i < v4.len() {
                    ipv4_gateway@
                } else {
                    ipv6_gateway@
                }) + " dev "@ + dev@ + "\n"@
        }),
{
    lemma_route_delete_mirrors_add(v4, v6, table@, ipv4_gateway@, ipv6_gateway@, dev@);
    let lines = route_script_lines(v4, v6, delete, table@, ipv4_gateway@, ipv6_gateway@, dev@);
    assert forall|i: int| 0 <= i < lines.len() implies #[trigger] lines[i] == (if i < v4.len() {
        "ip route "@
    } else {
        "ip -6 route "@
    }) + (if delete {
        "delete"@
    } else {
        "add"@
    }) + " table "@ + table@ + " "@ + cidr_text(script_block(v4, v6, i)) + " via "@ + (if i
        < v4.len() {
        ipv4_gateway@
    } else {
        ipv6_gateway@
    }) + " dev "@ + dev@ + "\n"@ by {
        let cmd = if i < v4.len() {
            "ip route "@
        } else {
            "ip -6 route "@
        };
        let verb = if delete {
            "delete"@
        } else {
            "add"@
        };
        let gw = if i < v4.len() {
            ipv4_gateway@
        } else {
            ipv6_gateway@
        };
        let block = cidr_text(script_block(v4, v6, i));
        assert(lines[i] == cmd + verb + (" table "@ + table@ + " "@ + block + " via "@ + gw
            + " dev "@ + dev@ + "\n"@));
        assert(cmd + verb + (" table "@ + table@ + " "@ + block + " via "@ + gw + " dev "@ + dev@
            + "\n"@) =~= cmd + verb + " table "@ + table@ + " "@ + block + " via "@ + gw + " dev "@
            + dev@ + "\n"@);
    }
}

} // verus!
