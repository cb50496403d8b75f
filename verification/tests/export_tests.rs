use market_data_source::export::{
    CouchDbExporter, CouchDbOptions, CsvExporter, CsvOptions, ExportFormat, ExportOptions, JsonExporter,
    JsonOptions, QuoteStyle,
};
use market_data_source::export::json::{json_array, json_lines};
use market_data_source::server::{DataFormat, RateLimitConfig, ServerConfig};
use market_data_source::{Price, Tick, OHLC};

#[test]
fn couchdb_test_couchdb_exporter_creation() {
    let exporter = CouchDbExporter::new("http://localhost:5984", "test_db");
    assert_eq!(exporter.server_url(), "http://localhost:5984");
    assert_eq!(exporter.database_name(), "test_db");
    assert_eq!(exporter.batch_size(), 1000);
}

#[test]
fn test_couchdb_exporter_with_auth() {
    let exporter = CouchDbExporter::new("http://localhost:5984", "test_db").with_auth("admin", "password");
    assert_eq!(*exporter.username(), Some("admin".to_string()));
    assert_eq!(*exporter.password(), Some("password".to_string()));
}

#[test]
fn test_couchdb_exporter_with_batch_size() {
    let exporter = CouchDbExporter::new("http://localhost:5984", "test_db").with_batch_size(500);
    assert_eq!(exporter.batch_size(), 500);
}

#[test]
fn test_couchdb_options_default() {
    let options = CouchDbOptions::default();
    assert_eq!(options.server_url, "http://localhost:5984");
    assert_eq!(options.database_name, "market_data");
    assert_eq!(options.batch_size, 1000);
    assert!(options.username.is_none());
    assert!(options.password.is_none());
}

#[test]
fn test_couchdb_options_builder() {
    let options = CouchDbOptions::default()
        .with_server("http://couchdb:5984")
        .with_database("my_data")
        .with_auth("user", "pass")
        .with_batch_size(2000);

    assert_eq!(options.server_url, "http://couchdb:5984");
    assert_eq!(options.database_name, "my_data");
    assert_eq!(options.username, Some("user".to_string()));
    assert_eq!(options.password, Some("pass".to_string()));
    assert_eq!(options.batch_size, 2000);
}

#[test]
fn couchdb_export_test_test_couchdb_exporter_creation() {
    let _exporter = CouchDbExporter::new("http://localhost:5984", "test_db");
    assert!(true, "CouchDB exporter created successfully");
}

#[test]
fn test_couchdb_exporter_with_options() {
    let _exporter =
        CouchDbExporter::new("http://localhost:5984", "test_db").with_auth("admin", "password").with_batch_size(500);
    assert!(true, "CouchDB exporter configured successfully");
}

#[test]
fn test_csv_exporter_creation() {
    let exporter = CsvExporter::new();
    assert!(exporter.options().include_headers);
    assert_eq!(exporter.options().delimiter, b',');
}

#[test]
fn test_csv_options_builder() {
    let exporter = CsvExporter::new().include_headers(false).delimiter(b';').quote_style(QuoteStyle::Always);

    assert!(!exporter.options().include_headers);
    assert_eq!(exporter.options().delimiter, b';');
}

#[test]
fn couchdb_exporter_from_options() {
    let options = CouchDbOptions::default().with_server("http://db:1").with_auth("u", "p").with_batch_size(3);
    let exporter = CouchDbExporter::from_options(options);
    assert_eq!(exporter.server_url(), "http://db:1");
    assert_eq!(exporter.database_name(), "market_data");
    assert_eq!(*exporter.username(), Some("u".to_string()));
    assert_eq!(*exporter.password(), Some("p".to_string()));
    assert_eq!(exporter.batch_size(), 3);
    let plain = CouchDbExporter::new("a", "b");
    assert!(plain.username().is_none());
    assert!(plain.password().is_none());
}

#[test]
fn csv_options() {
    let defaults = CsvOptions::default();
    assert_eq!(defaults.quote_style, QuoteStyle::Necessary);
    assert_eq!(defaults.buffer_capacity, 8192);
    let exporter = CsvExporter::with_options(CsvOptions {
        include_headers: false,
        delimiter: b'\t',
        quote_style: QuoteStyle::Never,
        buffer_capacity: 16,
    });
    assert_eq!(exporter.options().delimiter, b'\t');
    assert_eq!(exporter.options().quote_style, QuoteStyle::Never);
    assert_eq!(exporter.options().buffer_capacity, 16);
    assert_eq!(exporter.quote_style(QuoteStyle::Always).options().quote_style, QuoteStyle::Always);
    assert_eq!(CsvExporter::default().options(), CsvOptions::default());
}

#[test]
fn json_options() {
    assert_eq!(JsonOptions::default(), JsonOptions { pretty: false, json_lines: false, compress: false });
    assert_eq!(JsonOptions::pretty(), JsonOptions { pretty: true, json_lines: false, compress: false });
    assert_eq!(JsonOptions::json_lines(), JsonOptions { pretty: false, json_lines: true, compress: false });
    assert_eq!(JsonExporter::new().options(), JsonOptions::default());
    assert_eq!(JsonExporter::default().options(), JsonOptions::default());
    assert_eq!(JsonExporter::with_options(JsonOptions::json_lines()).options(), JsonOptions::json_lines());
}

#[test]
fn export_options() {
    let defaults = ExportOptions::new();
    assert!(defaults.include_headers);
    assert!(!defaults.pretty_json);
    assert_eq!(defaults.csv_delimiter, b',');
    assert!(defaults.include_timestamp);
    assert_eq!(defaults.max_records, None);
    assert_eq!(defaults, ExportOptions::default());
    let options = ExportOptions::new()
        .include_headers(false)
        .pretty_json(true)
        .csv_delimiter(b';')
        .include_timestamp(false)
        .max_records(Some(10));
    assert!(!options.include_headers);
    assert!(options.pretty_json);
    assert_eq!(options.csv_delimiter, b';');
    assert!(!options.include_timestamp);
    assert_eq!(options.max_records, Some(10));
    assert_eq!(options.records_to_write(25), 10);
    assert_eq!(options.records_to_write(4), 4);
    assert_eq!(defaults.records_to_write(25), 25);
}

#[test]
fn export_format_names() {
    assert_eq!(ExportFormat::Csv.name(), "CSV");
    assert_eq!(ExportFormat::Json.name(), "JSON");
    assert_eq!(ExportFormat::JsonLines.name(), "JSON Lines");
    assert_eq!(ExportFormat::CouchDb.name(), "CouchDB");
    assert_eq!(ExportFormat::Png.name(), "PNG");
}

#[test]
fn server_settings() {
    let config = ServerConfig::default();
    assert_eq!(config.port, 8080);
    assert_eq!(config.host, "0.0.0.0");
    assert!(config.enable_websocket);
    assert!(config.enable_swagger);
    assert_eq!(config.max_connections, 1000);
    assert_eq!(config.rate_limit, Some(RateLimitConfig { requests_per_second: 100, burst_size: 200 }));
    assert_eq!(config.cors_origins, vec!["*".to_string()]);
    assert_eq!(config.api_prefix, "/api/v1");
    assert_eq!(config.log_level, "info");
    assert_eq!(config.socket_addr(), "0.0.0.0:8080");
    let mut other = config.clone();
    other.host = "localhost".to_string();
    other.port = 0;
    assert_eq!(other.socket_addr(), "localhost:0");
    assert_eq!(DataFormat::default(), DataFormat::Ohlc);
}

fn ohlc(open: i64, high: i64, low: i64, close: i64, volume: u64, timestamp: i64) -> OHLC {
    OHLC::new(
        Price::new(open, 0),
        Price::new(high, 0),
        Price::new(low, 0),
        Price::new(close, 0),
        volume,
        timestamp,
    )
}

#[test]
fn test_write_ohlc_to_buffer() {
    let exporter = CsvExporter::new();
    let data =
        vec![ohlc(100, 105, 99, 103, 1000, 1234567890000), ohlc(103, 104, 101, 102, 1500, 1234567891000)];

    let csv_content = String::from_utf8(exporter.ohlc_document(&data).unwrap()).unwrap();
    assert!(csv_content.contains("timestamp,open,high,low,close,volume"));
    assert!(csv_content.contains("1234567890000,100,105,99,103,1000"));
    assert!(csv_content.contains("1234567891000,103,104,101,102,1500"));
}

#[test]
fn test_write_ticks_to_buffer() {
    let exporter = CsvExporter::new();
    let data = vec![
        Tick::new(Price::new(1005, 1), 500, 1234567890000),
        Tick::with_spread(Price::new(101, 0), 750, 1234567891000, Price::new(1009, 1), Price::new(1011, 1)),
    ];

    let csv_content = String::from_utf8(exporter.tick_document(&data).unwrap()).unwrap();
    assert!(csv_content.contains("timestamp,price,volume,bid,ask"));
    assert!(csv_content.contains("1234567890000,100.5,500,,"));
    assert!(csv_content.contains("1234567891000,101,750,100.9,101.1"));
}

#[test]
fn test_no_headers() {
    let exporter = CsvExporter::new().include_headers(false);
    let data = vec![ohlc(100, 105, 99, 103, 1000, 1234567890000)];

    let csv_content = String::from_utf8(exporter.ohlc_document(&data).unwrap()).unwrap();
    assert!(!csv_content.contains("timestamp,open,high,low,close,volume"));
    assert!(csv_content.contains("1234567890000,100,105,99,103,1000"));
}

#[test]
fn test_custom_delimiter() {
    let exporter = CsvExporter::new().delimiter(b';');
    let data = vec![ohlc(100, 105, 99, 103, 1000, 1234567890000)];

    let csv_content = String::from_utf8(exporter.ohlc_document(&data).unwrap()).unwrap();
    assert!(csv_content.contains("timestamp;open;high;low;close;volume"));
    assert!(csv_content.contains("1234567890000;100;105;99;103;1000"));
}

#[test]
fn csv_documents_in_full() {
    let candles = vec![ohlc(100, 105, 99, 103, 1000, -5), ohlc(103, 104, 101, 102, 0, i64::MIN)];
    assert_eq!(
        String::from_utf8(CsvExporter::new().ohlc_document(&candles).unwrap()).unwrap(),
        "timestamp,open,high,low,close,volume\n-5,100,105,99,103,1000\n-9223372036854775808,103,104,101,102,0\n"
    );
    assert_eq!(
        String::from_utf8(CsvExporter::new().include_headers(false).ohlc_document(&[]).unwrap()).unwrap(),
        ""
    );
    assert_eq!(
        String::from_utf8(CsvExporter::new().ohlc_document(&[]).unwrap()).unwrap(),
        "timestamp,open,high,low,close,volume\n"
    );
    let ticks = vec![Tick::new(Price::new(-1005, 2), u64::MAX, i64::MAX)];
    assert_eq!(
        String::from_utf8(CsvExporter::new().quote_style(QuoteStyle::Always).tick_document(&ticks).unwrap())
            .unwrap(),
        "\"timestamp\",\"price\",\"volume\",\"bid\",\"ask\"\n\"9223372036854775807\",\"-10.05\",\"18446744073709551615\",\"\",\"\"\n"
    );
    assert_eq!(
        String::from_utf8(CsvExporter::new().delimiter(b'.').include_headers(false).tick_document(&ticks).unwrap())
            .unwrap(),
        "9223372036854775807.\"-10.05\".18446744073709551615..\n"
    );
    let fields = vec![b"a,b".to_vec(), b"c".to_vec()];
    assert_eq!(CsvExporter::new().record(&fields).unwrap(), b"\"a,b\",c\n".to_vec());
    assert_eq!(CsvExporter::new().quote_style(QuoteStyle::Never).record(&fields).unwrap(), b"a,b,c\n".to_vec());
}

#[test]
fn json_framing() {
    let objects = vec![b"{\"a\":1}".to_vec(), b"{\"b\":2}".to_vec(), b"{}".to_vec()];
    assert_eq!(json_lines(&objects), b"{\"a\":1}\n{\"b\":2}\n{}\n".to_vec());
    assert_eq!(json_array(&objects), b"[{\"a\":1},{\"b\":2},{}]".to_vec());
    assert_eq!(json_lines(&objects[..1].to_vec()), b"{\"a\":1}\n".to_vec());
    assert_eq!(json_array(&objects[..1].to_vec()), b"[{\"a\":1}]".to_vec());
    assert_eq!(json_lines(&Vec::new()), Vec::<u8>::new());
    assert_eq!(json_array(&Vec::new()), b"[]".to_vec());
}
