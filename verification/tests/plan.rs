use tsumugi::app::{
    plan, script_for, tool_for, unit_for, App, Commands, ConvertCommands, GenerateCommands,
    Iproute2Commands, Source, SourceGroup, Work,
};
use tsumugi::error::Error;
use tsumugi::geoip::Cidr;

fn app(command: Commands, file: Option<&str>, url: Option<&str>) -> App {
    App {
        command: Some(command),
        source_group: SourceGroup {
            file: file.map(|s| s.to_string()),
            url: url.map(|s| s.to_string()),
        },
        code: Some("cn".to_string()),
        output: None,
    }
}

fn rule(delete: bool) -> GenerateCommands {
    GenerateCommands::Iproute2 {
        iproute2_command: Iproute2Commands::Rule { delete, table: "main".to_string() },
    }
}

#[test]
fn generate_from_file() {
    let p = plan(app(Commands::Generate { generate_command: rule(true) }, Some("a.dat"), None)).unwrap();
    assert!(matches!(p.source, Source::File(ref f) if f == "a.dat"));
    assert!(matches!(
        p.work,
        Work::Generate(GenerateCommands::Iproute2 {
            iproute2_command: Iproute2Commands::Rule { delete: true, .. }
        })
    ));
    assert_eq!(p.code, "cn");
    assert_eq!(p.output, "");
}

#[test]
fn systemd_clears_delete_and_needs_url() {
    let p = plan(app(Commands::Systemd { generate_command: rule(true) }, None, Some("http://x"))).unwrap();
    assert!(matches!(p.source, Source::Url(ref u) if u == "http://x"));
    assert!(matches!(
        p.work,
        Work::Systemd(GenerateCommands::Iproute2 {
            iproute2_command: Iproute2Commands::Rule { delete: false, .. }
        })
    ));
    let r = plan(app(Commands::Systemd { generate_command: rule(false) }, Some("f"), None));
    assert!(matches!(r, Err(Error::MissingUrl)));
    let r = plan(app(Commands::Systemd { generate_command: rule(false) }, None, Some("")));
    assert!(matches!(r, Err(Error::MissingUrl)));
}

#[test]
fn convert_output_overrides() {
    let mut a = app(
        Commands::Convert { convert_command: ConvertCommands::Srs {}, output: "out.srs".to_string() },
        None,
        Some("http://x"),
    );
    a.output = Some("other".to_string());
    a.code = None;
    let p = plan(a).unwrap();
    assert_eq!(p.output, "out.srs");
    assert_eq!(p.code, "");
    assert!(matches!(p.work, Work::Convert(ConvertCommands::Srs {})));
}

#[test]
fn tools_and_dispatch() {
    let nft = GenerateCommands::Nftables {
        table: "t".to_string(),
        ipv4set: "a".to_string(),
        ipv6set: "b".to_string(),
    };
    assert_eq!(tool_for(&nft), "nft");
    assert_eq!(tool_for(&rule(false)), "ip");
    let pair = (vec![Cidr { ip: vec![1, 2, 3, 4], prefix: 32 }], vec![]);
    assert_eq!(script_for(&rule(false), pair).unwrap(), "ip rule add to 1.2.3.4/32 lookup main\n");
    let unit = unit_for(&nft, "/usr/sbin/nft", "/bin/t", "u", "");
    assert!(unit.starts_with("[Unit]\nDescription=tsumugi nftables (nft -f)\n"));
}
