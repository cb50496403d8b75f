//! Exports: the formats, the options of each kind of export, candles and
//! ticks as CSV documents, and the framing of JSON output. Writing to files
//! and to other sinks is left to the caller.

use vstd::prelude::*;
use vstd::string::*;

pub mod csv;
pub mod json;

verus! {

/// The formats that data can be exported in.
#[derive(Debug, Clone, Copy, PartialEq, Eq, Structural)]
pub enum ExportFormat {
    Csv,
    Json,
    /// One JSON object on each line.
    JsonLines,
    CouchDb,
    Png,
}

impl ExportFormat {
    /// The name of the format.
    pub fn name(&self) -> (r: &'static str)
        ensures
            r@ == (match self {
                ExportFormat::Csv => "CSV"@,
                ExportFormat::Json => "JSON"@,
                ExportFormat::JsonLines => "JSON Lines"@,
                ExportFormat::CouchDb => "CouchDB"@,
                ExportFormat::Png => "PNG"@,
            }),
    {
        match self {
            ExportFormat::Csv => "CSV",
            ExportFormat::Json => "JSON",
            ExportFormat::JsonLines => "JSON Lines",
            ExportFormat::CouchDb => "CouchDB",
            ExportFormat::Png => "PNG",
        }
    }
}

/// Options that hold for every kind of export.
#[derive(Debug, Clone, Copy, PartialEq, Eq, Structural)]
pub struct ExportOptions {
    /// Whether a CSV export starts with a header row.
    pub include_headers: bool,
    pub pretty_json: bool,
    /// The byte that parts the fields of a CSV row.
    pub csv_delimiter: u8,
    pub include_timestamp: bool,
    /// The largest number of records exported; without one, all are.
    pub max_records: Option<usize>,
}

impl Default for ExportOptions {
    fn default() -> (r: ExportOptions)
        ensures
            r == ExportOptions::spec_default(),
    {
        ExportOptions {
            include_headers: true,
            pretty_json: false,
            csv_delimiter: 44,
            include_timestamp: true,
            max_records: None,
        }
    }
}

impl ExportOptions {
    /// Headers, plain JSON, a comma between fields, timestamps, and every
    /// record.
    pub open spec fn spec_default() -> ExportOptions {
        ExportOptions {
            include_headers: true,
            pretty_json: false,
            csv_delimiter: 44,
            include_timestamp: true,
            max_records: None,
        }
    }

    pub fn new() -> (r: ExportOptions)
        ensures
            r == ExportOptions::spec_default(),
    {
        ExportOptions::default()
    }

    pub fn include_headers(self, enabled: bool) -> (r: ExportOptions)
        ensures
            r == (ExportOptions { include_headers: enabled, ..self }),
    {
        let mut options = self;
        options.include_headers = enabled;
        options
    }

    pub fn pretty_json(self, pretty: bool) -> (r: ExportOptions)
        ensures
            r == (ExportOptions { pretty_json: pretty, ..self }),
    {
        let mut options = self;
        options.pretty_json = pretty;
        options
    }

    pub fn csv_delimiter(self, delimiter: u8) -> (r: ExportOptions)
        ensures
            r == (ExportOptions { csv_delimiter: delimiter, ..self }),
    {
        let mut options = self;
        options.csv_delimiter = delimiter;
        options
    }

    pub fn include_timestamp(self, enabled: bool) -> (r: ExportOptions)
        ensures
            r == (ExportOptions { include_timestamp: enabled, ..self }),
    {
        let mut options = self;
        options.include_timestamp = enabled;
        options
    }

    pub fn max_records(self, max: Option<usize>) -> (r: ExportOptions)
        ensures
            r == (ExportOptions { max_records: max, ..self }),
    {
        let mut options = self;
        options.max_records = max;
        options
    }

    /// The number of records that an export of `available` records writes.
    pub fn records_to_write(&self, available: usize) -> (r: usize)
        ensures
            r == (match self.max_records {
                Some(max) => if max < available {
                    max
                } else {
                    available
                },
                None => available,
            }),
    {
        match self.max_records {
            Some(max) => if max < available {
                max
            } else {
                available
            },
            None => available,
        }
    }
}

/// When the fields of a CSV row are put in quotes.
#[derive(Debug, Clone, Copy, PartialEq, Eq, Structural)]
pub enum QuoteStyle {
    /// Only where a field needs them.
    Necessary,
    Always,
    Never,
}

/// The options of a CSV export.
#[derive(Debug, Clone, Copy, PartialEq, Eq, Structural)]
pub struct CsvOptions {
    pub include_headers: bool,
    /// The byte that parts the fields of a row.
    pub delimiter: u8,
    pub quote_style: QuoteStyle,
    /// The size of the writer's buffer in bytes.
    pub buffer_capacity: usize,
}

impl Default for CsvOptions {
    fn default() -> (r: CsvOptions)
        ensures
            r == CsvOptions::spec_default(),
    {
        CsvOptions { include_headers: true, delimiter: 44, quote_style: QuoteStyle::Necessary, buffer_capacity: 8192 }
    }
}

impl CsvOptions {
    /// Headers, a comma between fields, quotes where needed, and a buffer
    /// of 8192 bytes.
    pub open spec fn spec_default() -> CsvOptions {
        CsvOptions { include_headers: true, delimiter: 44, quote_style: QuoteStyle::Necessary, buffer_capacity: 8192 }
    }
}

/// A CSV export with its options.
#[derive(Debug, Clone, Copy)]
pub struct CsvExporter {
    options: CsvOptions,
}

impl View for CsvExporter {
    type V = CsvOptions;

    closed spec fn view(&self) -> CsvOptions {
        self.options
    }
}

impl Default for CsvExporter {
    fn default() -> (r: CsvExporter)
        ensures
            r@ == CsvOptions::spec_default(),
    {
        CsvExporter { options: CsvOptions::default() }
    }
}

impl CsvExporter {
    /// An export with the default options.
    pub fn new() -> (r: CsvExporter)
        ensures
            r@ == CsvOptions::spec_default(),
    {
        CsvExporter::default()
    }

    pub fn with_options(options: CsvOptions) -> (r: CsvExporter)
        ensures
            r@ == options,
    {
        CsvExporter { options }
    }

    pub fn include_headers(self, enabled: bool) -> (r: CsvExporter)
        ensures
            r@ == (CsvOptions { include_headers: enabled, ..self@ }),
    {
        let mut exporter = self;
        exporter.options.include_headers = enabled;
        exporter
    }

    pub fn delimiter(self, delimiter: u8) -> (r: CsvExporter)
        ensures
            r@ == (CsvOptions { delimiter, ..self@ }),
    {
        let mut exporter = self;
        exporter.options.delimiter = delimiter;
        exporter
    }

    pub fn quote_style(self, style: QuoteStyle) -> (r: CsvExporter)
        ensures
            r@ == (CsvOptions { quote_style: style, ..self@ }),
    {
        let mut exporter = self;
        exporter.options.quote_style = style;
        exporter
    }

    /// The options of the export.
    pub fn options(&self) -> (r: CsvOptions)
        ensures
            r == self@,
    {
        self.options
    }
}

/// The options of a JSON export.
#[derive(Debug, Clone, Copy, PartialEq, Eq, Structural)]
pub struct JsonOptions {
    /// Whether the output is indented.
    pub pretty: bool,
    /// Whether each record is written as an object on a line of its own.
    pub json_lines: bool,
    pub compress: bool,
}

impl Default for JsonOptions {
    fn default() -> (r: JsonOptions)
        ensures
            r == (JsonOptions { pretty: false, json_lines: false, compress: false }),
    {
        JsonOptions { pretty: false, json_lines: false, compress: false }
    }
}

impl JsonOptions {
    /// An indented array.
    pub fn pretty() -> (r: JsonOptions)
        ensures
            r == (JsonOptions { pretty: true, json_lines: false, compress: false }),
    {
        JsonOptions { pretty: true, json_lines: false, compress: false }
    }

    /// One object on each line.
    pub fn json_lines() -> (r: JsonOptions)
        ensures
            r == (JsonOptions { pretty: false, json_lines: true, compress: false }),
    {
        JsonOptions { pretty: false, json_lines: true, compress: false }
    }
}

/// A JSON export with its options.
#[derive(Debug, Clone, Copy)]
pub struct JsonExporter {
    options: JsonOptions,
}

impl View for JsonExporter {
    type V = JsonOptions;

    closed spec fn view(&self) -> JsonOptions {
        self.options
    }
}

impl Default for JsonExporter {
    fn default() -> (r: JsonExporter)
        ensures
            r@ == (JsonOptions { pretty: false, json_lines: false, compress: false }),
    {
        JsonExporter::new()
    }
}

impl JsonExporter {
    /// An export of a plain array.
    pub fn new() -> (r: JsonExporter)
        ensures
            r@ == (JsonOptions { pretty: false, json_lines: false, compress: false }),
    {
        JsonExporter { options: JsonOptions::default() }
    }

    pub fn with_options(options: JsonOptions) -> (r: JsonExporter)
        ensures
            r@ == options,
    {
        JsonExporter { options }
    }

    /// The options of the export.
    pub fn options(&self) -> (r: JsonOptions)
        ensures
            r == self@,
    {
        self.options
    }
}

/// What an export to a document store holds.
pub struct CouchDbView {
    pub server_url: Seq<char>,
    pub database_name: Seq<char>,
    pub username: Option<Seq<char>>,
    pub password: Option<Seq<char>>,
    pub batch_size: usize,
}

/// The text of an optional string.
pub open spec fn text_of(text: Option<String>) -> Option<Seq<char>> {
    match text {
        Some(t) => Some(t@),
        None => None,
    }
}

/// An export to a document store.
#[derive(Debug, Clone)]
pub struct CouchDbExporter {
    server_url: String,
    database_name: String,
    username: Option<String>,
    password: Option<String>,
    batch_size: usize,
}

impl View for CouchDbExporter {
    type V = CouchDbView;

    closed spec fn view(&self) -> CouchDbView {
        CouchDbView {
            server_url: self.server_url@,
            database_name: self.database_name@,
            username: text_of(self.username),
            password: text_of(self.password),
            batch_size: self.batch_size,
        }
    }
}

impl CouchDbExporter {
    /// An export to the given server and database, without credentials, in
    /// batches of 1000.
    pub fn new(server_url: &str, database_name: &str) -> (r: CouchDbExporter)
        ensures
            r@ == (CouchDbView {
                server_url: server_url@,
                database_name: database_name@,
                username: None,
                password: None,
                batch_size: 1000,
            }),
    {
        CouchDbExporter {
            server_url: String::from_str(server_url),
            database_name: String::from_str(database_name),
            username: None,
            password: None,
            batch_size: 1000,
        }
    }

    pub fn with_auth(self, username: &str, password: &str) -> (r: CouchDbExporter)
        ensures
            r@ == (CouchDbView { username: Some(username@), password: Some(password@), ..self@ }),
    {
        let mut exporter = self;
        exporter.username = Some(String::from_str(username));
        exporter.password = Some(String::from_str(password));
        exporter
    }

    pub fn with_batch_size(self, batch_size: usize) -> (r: CouchDbExporter)
        ensures
            r@ == (CouchDbView { batch_size, ..self@ }),
    {
        let mut exporter = self;
        exporter.batch_size = batch_size;
        exporter
    }

    /// An export as the options say.
    pub fn from_options(options: CouchDbOptions) -> (r: CouchDbExporter)
        ensures
            r@ == options@,
    {
        CouchDbExporter {
            server_url: options.server_url,
            database_name: options.database_name,
            username: options.username,
            password: options.password,
            batch_size: options.batch_size,
        }
    }

    pub fn server_url(&self) -> (r: &str)
        ensures
            r@ == self@.server_url,
    {
        self.server_url.as_str()
    }

    pub fn database_name(&self) -> (r: &str)
        ensures
            r@ == self@.database_name,
    {
        self.database_name.as_str()
    }

    pub fn username(&self) -> (r: &Option<String>)
        ensures
            text_of(*r) == self@.username,
    {
        &self.username
    }

    pub fn password(&self) -> (r: &Option<String>)
        ensures
            text_of(*r) == self@.password,
    {
        &self.password
    }

    pub fn batch_size(&self) -> (r: usize)
        ensures
            r == self@.batch_size,
    {
        self.batch_size
    }
}

/// The options of an export to a document store.
#[derive(Debug, Clone)]
pub struct CouchDbOptions {
    pub server_url: String,
    pub database_name: String,
    pub username: Option<String>,
    pub password: Option<String>,
    /// The number of documents written at once.
    pub batch_size: usize,
}

impl View for CouchDbOptions {
    type V = CouchDbView;

    open spec fn view(&self) -> CouchDbView {
        CouchDbView {
            server_url: self.server_url@,
            database_name: self.database_name@,
            username: text_of(self.username),
            password: text_of(self.password),
            batch_size: self.batch_size,
        }
    }
}

impl Default for CouchDbOptions {
    /// The local server, the database `market_data`, no credentials, and
    /// batches of 1000.
    fn default() -> (r: CouchDbOptions)
        ensures
            r@ == (CouchDbView {
                server_url: "http://localhost:5984"@,
                database_name: "market_data"@,
                username: None,
                password: None,
                batch_size: 1000,
            }),
    {
        CouchDbOptions {
            server_url: String::from_str("http://localhost:5984"),
            database_name: String::from_str("market_data"),
            username: None,
            password: None,
            batch_size: 1000,
        }
    }
}

impl CouchDbOptions {
    pub fn with_server(self, url: &str) -> (r: CouchDbOptions)
        ensures
            r@ == (CouchDbView { server_url: url@, ..self@ }),
    {
        let mut options = self;
        options.server_url = String::from_str(url);
        options
    }

    pub fn with_database(self, name: &str) -> (r: CouchDbOptions)
        ensures
            r@ == (CouchDbView { database_name: name@, ..self@ }),
    {
        let mut options = self;
        options.database_name = String::from_str(name);
        options
    }

    pub fn with_auth(self, username: &str, password: &str) -> (r: CouchDbOptions)
        ensures
            r@ == (CouchDbView { username: Some(username@), password: Some(password@), ..self@ }),
    {
        let mut options = self;
        options.username = Some(String::from_str(username));
        options.password = Some(String::from_str(password));
        options
    }

    pub fn with_batch_size(self, size: usize) -> (r: CouchDbOptions)
        ensures
            r@ == (CouchDbView { batch_size: size, ..self@ }),
    {
        let mut options = self;
        options.batch_size = size;
        options
    }
}

} // verus!
