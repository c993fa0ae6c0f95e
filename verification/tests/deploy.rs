use yaml_verifier::deploy::error::{
    BuildError, DeployOptionsError, DeploymentTargetOptionsError, ExposeError,
};
use yaml_verifier::deploy::structs::{
    DeployLink, DeployOptions, DeployTarget, DeployTargetType, NetworkProtocol,
};
use yaml_verifier::deploy::{parse_deploy, parse_deploy_target, parse_expose, DEFAULT_REPLICAS};
use yaml_verifier::structs::{ValueType, ValueTypeEnum};
use yaml_verifier::Node;

fn text(value: &str) -> Node {
    Node::String(value.to_string())
}

fn number(value: u64) -> Node {
    Node::Number(Some(value))
}

fn map(entries: Vec<(&str, Node)>) -> Node {
    Node::Mapping(entries.into_iter().map(|(key, value)| (text(key), value)).collect())
}

fn kind(type_enum: ValueTypeEnum) -> ValueType {
    ValueType { type_enum }
}

#[test]
fn expose_of_port_and_protocol() {
    assert_eq!(parse_expose("8080/tcp"), Ok(NetworkProtocol::Tcp(8080)));
    assert_eq!(parse_expose("53/udp"), Ok(NetworkProtocol::Udp(53)));
    assert_eq!(parse_expose("0/tcp"), Ok(NetworkProtocol::Tcp(0)));
    assert_eq!(parse_expose("+80/tcp"), Ok(NetworkProtocol::Tcp(80)));
}

#[test]
fn expose_round_trip() {
    let parsed = parse_expose("8080/tcp").unwrap();
    assert_eq!(parsed.port(), 8080);
    assert!(parsed.is_tcp());
    assert!(!parsed.is_udp());
    assert_eq!(parsed.expose_string(), "8080/tcp");
    for expose in [
        NetworkProtocol::Tcp(0),
        NetworkProtocol::Udp(1),
        NetworkProtocol::Tcp(65535),
        NetworkProtocol::Udp(70000),
        NetworkProtocol::Tcp(u32::MAX),
    ] {
        assert_eq!(parse_expose(&expose.expose_string()), Ok(expose));
    }
    assert_eq!(NetworkProtocol::Udp(53).expose_string(), "53/udp");
}

#[test]
fn expose_port_is_wider_than_sixteen_bits() {
    assert_eq!(parse_expose("70000/tcp"), Ok(NetworkProtocol::Tcp(70000)));
    assert_eq!(parse_expose("65536/udp"), Ok(NetworkProtocol::Udp(65536)));
    assert_eq!(parse_expose("4294967295/tcp"), Ok(NetworkProtocol::Tcp(4294967295)));
    assert_eq!(
        parse_expose("4294967296/tcp"),
        Err(ExposeError::BadParts {
            data: "4294967296/tcp".to_string(),
            port: true,
            protocol: false,
        })
    );
}

#[test]
fn expose_without_separator() {
    assert_eq!(parse_expose("8080"), Err(ExposeError::BadFormat("8080".to_string())));
    assert_eq!(parse_expose(""), Err(ExposeError::BadFormat("".to_string())));
    assert_eq!(parse_expose("8080:tcp"), Err(ExposeError::BadFormat("8080:tcp".to_string())));
}

#[test]
fn expose_with_bad_sides() {
    assert_eq!(
        parse_expose("http/tcp"),
        Err(ExposeError::BadParts { data: "http/tcp".to_string(), port: true, protocol: false })
    );
    assert_eq!(
        parse_expose("80/http"),
        Err(ExposeError::BadParts { data: "80/http".to_string(), port: false, protocol: true })
    );
    assert_eq!(
        parse_expose("x/y"),
        Err(ExposeError::BadParts { data: "x/y".to_string(), port: true, protocol: true })
    );
    assert_eq!(
        parse_expose("80/tcp/x"),
        Err(ExposeError::BadParts { data: "80/tcp/x".to_string(), port: false, protocol: true })
    );
    assert_eq!(
        parse_expose("/"),
        Err(ExposeError::BadParts { data: "/".to_string(), port: true, protocol: true })
    );
    assert_eq!(
        parse_expose("80/TCP"),
        Err(ExposeError::BadParts { data: "80/TCP".to_string(), port: false, protocol: true })
    );
    assert_eq!(
        parse_expose("-1/udp"),
        Err(ExposeError::BadParts { data: "-1/udp".to_string(), port: true, protocol: false })
    );
}

#[test]
fn target_with_defaults() {
    let target = parse_deploy_target(&map(vec![("expose", text("8080/tcp"))])).unwrap();
    assert_eq!(
        target,
        DeployTarget {
            expose: NetworkProtocol::Tcp(8080),
            build: ".".to_string(),
            replicas: 1,
        }
    );
    assert_eq!(DEFAULT_REPLICAS, 1);
}

#[test]
fn target_in_full() {
    let target = parse_deploy_target(&map(vec![
        ("expose", text("9000/udp")),
        ("src", text("services/web")),
        ("replicas", number(3)),
    ]))
    .unwrap();
    assert_eq!(
        target,
        DeployTarget {
            expose: NetworkProtocol::Udp(9000),
            build: "services/web".to_string(),
            replicas: 3,
        }
    );
}

fn with_replicas(replicas: Node) -> Result<DeployTarget, DeploymentTargetOptionsError> {
    parse_deploy_target(&map(vec![("expose", text("8080/tcp")), ("replicas", replicas)]))
}

fn replicas_invalid(found: ValueTypeEnum) -> DeploymentTargetOptionsError {
    DeploymentTargetOptionsError::Parts {
        expose: None,
        replicas_invalid: Some(kind(found)),
        build: None,
    }
}

#[test]
fn replicas_boundaries() {
    assert_eq!(with_replicas(number(0)), Err(replicas_invalid(ValueTypeEnum::Number)));
    assert_eq!(with_replicas(number(256)), Err(replicas_invalid(ValueTypeEnum::Number)));
    assert_eq!(with_replicas(number(1)).unwrap().replicas, 1);
    assert_eq!(with_replicas(number(255)).unwrap().replicas, 255);
    assert_eq!(with_replicas(number(2)).unwrap().replicas, 2);
    assert_eq!(with_replicas(number(u64::MAX)), Err(replicas_invalid(ValueTypeEnum::Number)));
    let absent = parse_deploy_target(&map(vec![("expose", text("8080/tcp"))])).unwrap();
    assert_eq!(absent.replicas, 1);
}

#[test]
fn replicas_of_wrong_kind() {
    assert_eq!(with_replicas(Node::Number(None)), Err(replicas_invalid(ValueTypeEnum::Number)));
    assert_eq!(with_replicas(text("2")), Err(replicas_invalid(ValueTypeEnum::String)));
    assert_eq!(with_replicas(Node::Null), Err(replicas_invalid(ValueTypeEnum::Null)));
    assert_eq!(with_replicas(Node::Bool(true)), Err(replicas_invalid(ValueTypeEnum::Bool)));
    assert_eq!(
        with_replicas(Node::Sequence(vec![])),
        Err(replicas_invalid(ValueTypeEnum::Sequence))
    );
}

#[test]
fn target_that_is_no_map() {
    assert_eq!(
        parse_deploy_target(&text("8080/tcp")),
        Err(DeploymentTargetOptionsError::BadBaseType(kind(ValueTypeEnum::String)))
    );
    assert_eq!(
        parse_deploy_target(&Node::Null),
        Err(DeploymentTargetOptionsError::BadBaseType(kind(ValueTypeEnum::Null)))
    );
}

#[test]
fn target_build_source() {
    let absolute = parse_deploy_target(&map(vec![
        ("expose", text("8080/tcp")),
        ("src", text("/srv/web")),
    ]));
    assert_eq!(
        absolute,
        Err(DeploymentTargetOptionsError::Parts {
            expose: None,
            replicas_invalid: None,
            build: Some(BuildError::NotRelative("/srv/web".to_string())),
        })
    );
    let no_string = parse_deploy_target(&map(vec![
        ("expose", text("8080/tcp")),
        ("src", number(5)),
    ]));
    assert_eq!(
        no_string,
        Err(DeploymentTargetOptionsError::Parts {
            expose: None,
            replicas_invalid: None,
            build: Some(BuildError::BadType(kind(ValueTypeEnum::Number))),
        })
    );
}

#[test]
fn target_reports_every_part() {
    let target = parse_deploy_target(&map(vec![
        ("expose", text("web")),
        ("src", text("/abs")),
        ("replicas", number(0)),
    ]));
    assert_eq!(
        target,
        Err(DeploymentTargetOptionsError::Parts {
            expose: Some(ExposeError::BadFormat("web".to_string())),
            replicas_invalid: Some(kind(ValueTypeEnum::Number)),
            build: Some(BuildError::NotRelative("/abs".to_string())),
        })
    );
    let missing = parse_deploy_target(&map(vec![]));
    assert_eq!(
        missing,
        Err(DeploymentTargetOptionsError::Parts {
            expose: Some(ExposeError::Missing),
            replicas_invalid: None,
            build: None,
        })
    );
    let no_string = parse_deploy_target(&map(vec![("expose", number(8080))]));
    assert_eq!(
        no_string,
        Err(DeploymentTargetOptionsError::Parts {
            expose: Some(ExposeError::BadType(kind(ValueTypeEnum::Number))),
            replicas_invalid: None,
            build: None,
        })
    );
    assert_ne!(missing, no_string);
    let null = parse_deploy_target(&map(vec![("expose", Node::Null)]));
    assert_eq!(
        null,
        Err(DeploymentTargetOptionsError::Parts {
            expose: Some(ExposeError::BadType(kind(ValueTypeEnum::Null))),
            replicas_invalid: None,
            build: None,
        })
    );
}

#[test]
fn deploy_of_some_targets() {
    let options = parse_deploy(&map(vec![
        ("web", map(vec![("expose", text("80/tcp"))])),
        ("nc", map(vec![("expose", text("1337/tcp")), ("replicas", number(2))])),
    ]))
    .unwrap();
    let web = DeployTarget {
        expose: NetworkProtocol::Tcp(80),
        build: ".".to_string(),
        replicas: 1,
    };
    let nc = DeployTarget {
        expose: NetworkProtocol::Tcp(1337),
        build: ".".to_string(),
        replicas: 2,
    };
    assert_eq!(
        options,
        DeployOptions { web: Some(web.clone()), admin: None, nc: Some(nc.clone()) }
    );
    assert_eq!(
        options.into_iter(),
        vec![(web, DeployTargetType::Web), (nc, DeployTargetType::Nc)]
    );
    let empty = parse_deploy(&map(vec![])).unwrap();
    assert_eq!(empty, DeployOptions { web: None, admin: None, nc: None });
    assert!(empty.into_iter().is_empty());
}

#[test]
fn deploy_names_each_bad_target() {
    let options = parse_deploy(&map(vec![
        ("web", text("80/tcp")),
        ("admin", map(vec![("expose", text("81/tcp"))])),
        ("nc", map(vec![])),
    ]));
    assert_eq!(
        options,
        Err(DeployOptionsError::Parts {
            web: Box::new(Some(DeploymentTargetOptionsError::BadBaseType(kind(
                ValueTypeEnum::String
            )))),
            admin: Box::new(None),
            nc: Box::new(Some(DeploymentTargetOptionsError::Parts {
                expose: Some(ExposeError::Missing),
                replicas_invalid: None,
                build: None,
            })),
        })
    );
    assert_eq!(
        parse_deploy(&Node::Sequence(vec![])),
        Err(DeployOptionsError::BadBaseType(kind(ValueTypeEnum::Sequence)))
    );
}

#[test]
fn target_types() {
    assert!(DeployTargetType::Web.is_web());
    assert!(!DeployTargetType::Web.is_admin());
    assert!(DeployTargetType::Admin.is_admin());
    assert!(DeployTargetType::Nc.is_nc());
    assert!(!DeployTargetType::Nc.is_static());
    assert!(DeployTargetType::Static.is_static());
    assert_eq!(DeployTargetType::Web.as_str(), "web");
    assert_eq!(DeployTargetType::Admin.as_str(), "admin");
    assert_eq!(DeployTargetType::Nc.as_str(), "nc");
    assert_eq!(DeployTargetType::Static.as_str(), "static");
    let link = DeployLink { deploy_target: DeployTargetType::Web, link: "http://x".to_string() };
    assert_eq!(link.clone(), link);
}

#[test]
fn target_rendering() {
    let one = DeployTarget {
        expose: NetworkProtocol::Tcp(8080),
        build: ".".to_string(),
        replicas: 1,
    };
    assert_eq!(one.render(), "Target< 8080 (tcp) (1 replica)  @  .>");
    let many = DeployTarget {
        expose: NetworkProtocol::Udp(53),
        build: "dns".to_string(),
        replicas: 12,
    };
    assert_eq!(many.render(), "Target< 53 (udp) (12 replicas)  @  dns>");
}

#[test]
fn deploy_messages() {
    assert_eq!(
        ExposeError::Missing.message(),
        "You must specify what port and protocol to expose."
    );
    assert_eq!(
        ExposeError::BadType(kind(ValueTypeEnum::Number)).message(),
        "The `expose` value must be a string, not a number."
    );
    assert_eq!(
        ExposeError::BadFormat("8080".to_string()).message(),
        "The `expose` value must follos the format <port>/<protocol>. `8080` does not match. (Protocols are `udp` and `tcp`)"
    );
    assert_eq!(
        ExposeError::BadParts { data: "x/y".to_string(), port: true, protocol: true }.message(),
        "The port must be a number and the protocol must be `tcp` or `udp`. (x/y was recieved)"
    );
    assert_eq!(
        ExposeError::BadParts { data: "x/tcp".to_string(), port: true, protocol: false }.message(),
        "The port must be a number. (x/tcp was recieved)"
    );
    assert_eq!(
        ExposeError::BadParts { data: "1/y".to_string(), port: false, protocol: true }.message(),
        "The protocol must be `tcp` or `udp`. (1/y was recieved)"
    );
    assert_eq!(
        BuildError::BadType(kind(ValueTypeEnum::Number)).message(),
        "Build should be a relative path, not a number.\n"
    );
    assert_eq!(
        BuildError::NotPath("?".to_string()).message(),
        "Build should be a VALID relative path. \"?\" is not a valid path.\n"
    );
    assert_eq!(
        BuildError::NotRelative("/abs".to_string()).message(),
        "Build should be a RELATIVE path. \"/abs\" is not a relative path.\n"
    );
    assert_eq!(
        DeploymentTargetOptionsError::BadBaseType(kind(ValueTypeEnum::Null)).message(),
        "A target should be a map with values for `expose` and (optionally) `replicas`, not `null`.\n"
    );
    let parts = DeploymentTargetOptionsError::Parts {
        expose: Some(ExposeError::Missing),
        replicas_invalid: Some(kind(ValueTypeEnum::String)),
        build: Some(BuildError::NotRelative("/abs".to_string())),
    };
    assert_eq!(
        parts.message(),
        "There were issues with certain parts of this target:\n            You must specify what port and protocol to expose.\n            `replicas` should be a number from 1 - 255, not a string.\n            Build should be a RELATIVE path. \"/abs\" is not a relative path.\n.\n"
    );
    let options = DeployOptionsError::Parts {
        web: Box::new(Some(DeploymentTargetOptionsError::BadBaseType(kind(ValueTypeEnum::Bool)))),
        admin: Box::new(None),
        nc: Box::new(Some(DeploymentTargetOptionsError::Parts {
            expose: Some(ExposeError::Missing),
            replicas_invalid: None,
            build: None,
        })),
    };
    assert_eq!(
        options.message(),
        "There were issues with certain deployment targets:\n        web:   A target should be a map with values for `expose` and (optionally) `replicas`, not a boolean.\n\n        nc:    There were issues with certain parts of this target:\n            You must specify what port and protocol to expose.\n\n"
    );
    assert_eq!(
        DeployOptionsError::BadBaseType(kind(ValueTypeEnum::Sequence)).message(),
        "Deploy should be a map of `web`, `admin`, and `nc`, not a list.\n"
    );
}
