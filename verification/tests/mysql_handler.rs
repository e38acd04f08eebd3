use hetu::base::stoppable::ServiceState;
use hetu::error::HetuError;
use hetu::query::config::Config;
use hetu::query::protocol::mysql_handler::{Backend, MySQLHandler, Shutdown};
use hetu::query::utils::query_results_writer::{
    Block, Cell, Column, ColumnType, DFQueryResultWriter, DataType, Field, Reply, RowOperation,
};

fn config(host: &str, port: i32) -> Config {
    let mut conf = Config::default();
    conf.mysql_handler_host = host.to_string();
    conf.mysql_handler_port = port;
    conf
}

fn internal(text: &str) -> HetuError {
    HetuError::Internal(text.to_string())
}

#[test]
fn handler_starts_once() {
    let mut handler = MySQLHandler::create(config("127.0.0.1", 3307));
    assert_eq!(handler.current(), ServiceState::Created);
    assert_eq!(handler.start(), Ok("127.0.0.1:3307".to_string()));
    assert_eq!(handler.accepting(), Ok(()));
    assert_eq!(handler.current(), ServiceState::Started);
    assert_eq!(
        handler.start(),
        Err(internal("MySQLHandler already running."))
    );
    assert_eq!(
        handler.accepting(),
        Err(internal("MySQLHandler already running."))
    );
    // The refused start has left the listener running.
    assert_eq!(handler.current(), ServiceState::Started);
    assert_eq!(handler.shutdown(true), Ok(Shutdown::AbortAndJoin));
}

#[test]
fn handler_writes_every_port() {
    assert_eq!(
        MySQLHandler::create(config("h", 0)).start(),
        Ok("h:0".to_string())
    );
    assert_eq!(
        MySQLHandler::create(config("h", -1)).start(),
        Ok("h:-1".to_string())
    );
    assert_eq!(
        MySQLHandler::create(config("", i32::MAX)).start(),
        Ok(":2147483647".to_string())
    );
    assert_eq!(
        MySQLHandler::create(config("h", i32::MIN)).start(),
        Ok("h:-2147483648".to_string())
    );
}

#[test]
fn failed_start_leaves_the_handler_created() {
    let mut handler = MySQLHandler::create(config("127.0.0.1", 3307));
    assert_eq!(handler.start(), Ok("127.0.0.1:3307".to_string()));
    // The address is in use: the caller reports the failure of the bind.
    assert_eq!(
        handler.bind_failed("Address already in use (os error 98)"),
        internal("127.0.0.1:3307 Address already in use (os error 98)")
    );
    assert_eq!(handler.current(), ServiceState::Created);
    // Nothing runs, so there is nothing to stop.
    assert_eq!(
        handler.shutdown(true),
        Err(internal("MySQLHandler not started."))
    );
    // Once the port is free a start succeeds.
    assert_eq!(handler.start(), Ok("127.0.0.1:3307".to_string()));
    assert_eq!(handler.accepting(), Ok(()));
    assert_eq!(handler.current(), ServiceState::Started);
}

#[test]
fn second_stop_is_an_error() {
    let mut handler = MySQLHandler::create(config("h", 1));
    handler.start().unwrap();
    handler.accepting().unwrap();
    assert_eq!(handler.shutdown(true), Ok(Shutdown::AbortAndJoin));
    assert_eq!(handler.current(), ServiceState::Stopped);
    assert_eq!(
        handler.shutdown(true),
        Err(internal("MySQLHandler already stopped."))
    );
    assert_eq!(
        handler.shutdown(false),
        Err(internal("MySQLHandler already stopped."))
    );
    assert_eq!(handler.current(), ServiceState::Stopped);
    assert_eq!(
        handler.start(),
        Err(internal("MySQLHandler already stopped."))
    );
}

#[test]
fn stop_before_start_is_an_error() {
    let mut handler = MySQLHandler::create(config("h", 1));
    assert_eq!(
        handler.shutdown(true),
        Err(internal("MySQLHandler not started."))
    );
    assert_eq!(
        handler.shutdown(false),
        Err(internal("MySQLHandler not started."))
    );
    assert_eq!(handler.current(), ServiceState::Created);
    // The refused stop has changed nothing: the handler still starts.
    assert_eq!(handler.start(), Ok("h:1".to_string()));
    assert_eq!(handler.accepting(), Ok(()));
    assert_eq!(handler.shutdown(true), Ok(Shutdown::AbortAndJoin));
}

#[test]
fn shutdown_that_is_not_graceful_does_nothing() {
    let mut handler = MySQLHandler::create(config("h", 1));
    handler.start().unwrap();
    handler.accepting().unwrap();
    assert_eq!(handler.shutdown(false), Ok(Shutdown::Nothing));
    assert_eq!(handler.current(), ServiceState::Started);
    assert_eq!(handler.shutdown(false), Ok(Shutdown::Nothing));
    assert_eq!(handler.shutdown(true), Ok(Shutdown::AbortAndJoin));
    assert_eq!(handler.current(), ServiceState::Stopped);
}

#[test]
fn only_root_logs_in() {
    let backend = Backend {};
    assert!(backend.authenticate("mysql_native_password", b"root", b"", b""));
    assert!(backend.authenticate("", "root".as_bytes(), b"salt", b"anything"));
    for user in ["", "Root", "roo", "root ", "admin", "roott"] {
        assert!(!backend.authenticate("mysql_native_password", user.as_bytes(), b"", b""));
    }
}

#[test]
fn backend_announces_itself() {
    let backend = Backend {};
    assert_eq!(backend.connect_id(), u32::from_le_bytes([0x08, 0x00, 0x00, 0x00]));
    assert_eq!(backend.default_auth_plugin(), "mysql_native_password");
    assert_eq!(backend.auth_plugin_for_username(b"whoever"), "mysql_native_password");
    assert_eq!(
        backend.version(),
        "5.7.25-HetuDB-v0.1.0-alpha HetuDB Server (Apache License 2.0) \nCommunity Edition, MySQL 5.7 compatiible"
    );
}

#[test]
fn salt_is_the_seed_without_forbidden_bytes() {
    let salt = Backend {}.salt();
    assert_eq!(&salt[..], ";X,po_k}>o6^Wz!/kM}N".as_bytes());
    assert!(salt.iter().all(|b| *b != 0 && *b != b'$'));
}

#[test]
fn query_result_is_answered_with_extra_info() {
    let mut writer = DFQueryResultWriter::create();
    let blocks = vec![Block {
        fields: vec![Field {
            name: "a".to_string(),
            data_type: DataType::Int32,
            shown_as: "Int32".to_string(),
        }],
        cells: vec![vec![Cell::Value]],
    }];
    assert_eq!(
        Backend {}.on_query(&mut writer, Ok(blocks)),
        Reply::Rows {
            columns: vec![Column {
                table: String::new(),
                column: "a".to_string(),
                coltype: ColumnType::Long
            }],
            operations: vec![
                RowOperation::WriteValue {
                    block: 0,
                    row: 0,
                    column: 0
                },
                RowOperation::EndRow
            ],
            info: "ExtraInfo".to_string(),
        }
    );
    assert_eq!(Backend {}.on_query(&mut writer, Ok(vec![])), Reply::Nothing);
}

#[test]
fn failed_query_is_answered_with_the_line_of_its_error() {
    let mut writer = DFQueryResultWriter::create();
    assert_eq!(
        Backend {}.on_query(
            &mut writer,
            Err("This feature is not implemented: show tables".to_string())
        ),
        Reply::Error {
            message: "Data fusion error: This feature is not implemented: show tables"
                .to_string()
        }
    );
    let mut writer = DFQueryResultWriter::create();
    assert_eq!(
        Backend {}.on_query(&mut writer, Ok(vec![])),
        Reply::Completed {
            info: "ExtraInfo".to_string()
        }
    );
}
