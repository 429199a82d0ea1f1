use oracode::cli::{Cli, ConnectionConfig, DatabaseName};

fn sample_cli(sid: Option<&str>, service_name: Option<&str>) -> Cli {
    Cli {
        host: "db.example.test".to_string(),
        port: 1521,
        user: "hr".to_string(),
        password: "secret".to_string(),
        sid: sid.map(|s| s.to_string()),
        service_name: service_name.map(|s| s.to_string()),
        schema: "HR".to_string(),
        output: "./oracode-out".to_string(),
        keep_quotes: false,
        concurrency: 8,
        includes: Vec::new(),
        excludes: Vec::new(),
        lossless: false,
    }
}

#[test]
fn builds_service_name_descriptor() {
    let config = ConnectionConfig {
        host: "db.example.test".to_string(),
        port: 1521,
        user: "hr".to_string(),
        password: "secret".to_string(),
        database: DatabaseName::ServiceName("orclpdb1".to_string()),
    };

    assert_eq!(
        config.connect_descriptor(),
        "(DESCRIPTION=(ADDRESS=(PROTOCOL=TCP)(HOST=db.example.test)(PORT=1521))(CONNECT_DATA=(SERVICE_NAME=orclpdb1)))"
    );
}

#[test]
fn builds_sid_descriptor() {
    let config = ConnectionConfig {
        host: "localhost".to_string(),
        port: 1522,
        user: "system".to_string(),
        password: "secret".to_string(),
        database: DatabaseName::Sid("XE".to_string()),
    };

    assert_eq!(
        config.connect_descriptor(),
        "(DESCRIPTION=(ADDRESS=(PROTOCOL=TCP)(HOST=localhost)(PORT=1522))(CONNECT_DATA=(SID=XE)))"
    );
}

#[test]
fn descriptor_writes_port_in_decimal_without_padding() {
    for (port, text) in [(0u16, "0"), (7, "7"), (10, "10"), (80, "80"), (65535, "65535")] {
        let config = ConnectionConfig {
            host: "h".to_string(),
            port,
            user: "u".to_string(),
            password: "p".to_string(),
            database: DatabaseName::Sid("S".to_string()),
        };
        assert_eq!(
            config.connect_descriptor(),
            format!("(DESCRIPTION=(ADDRESS=(PROTOCOL=TCP)(HOST=h)(PORT={text}))(CONNECT_DATA=(SID=S)))")
        );
    }
}

#[test]
fn connection_config_takes_the_sid() {
    let cli = sample_cli(Some("XE"), None);
    assert_eq!(
        cli.connection_config(),
        ConnectionConfig {
            host: "db.example.test".to_string(),
            port: 1521,
            user: "hr".to_string(),
            password: "secret".to_string(),
            database: DatabaseName::Sid("XE".to_string()),
        }
    );
}

#[test]
fn connection_config_takes_the_service_name() {
    let cli = sample_cli(None, Some("orclpdb1"));
    assert_eq!(
        cli.connection_config().database,
        DatabaseName::ServiceName("orclpdb1".to_string())
    );
}
