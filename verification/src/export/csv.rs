//! Candles and ticks as CSV text.
//!
//! A candle is the record `timestamp,open,high,low,close,volume`, a tick the
//! record `timestamp,price,volume,bid,ask` with an empty field for a quote
//! that is not known. Quoting and the end of a record are the `csv` crate's.

use crate::export::{CsvExporter, CsvOptions, QuoteStyle};
use crate::price::Price;
use crate::text::{integer_bytes, integer_text};
use crate::types::{Tick, OHLC};
use vstd::prelude::*;

verus! {

/// The bytes of one CSV record with the given fields, as the `csv` crate
/// writes it with the given delimiter and quote style (0 for quotes where
/// needed, 1 for always, 2 for never); `None` where it reports an error.
pub uninterp spec fn csv_record_bytes(fields: Seq<Seq<u8>>, delimiter: u8, style: u8) -> Option<Seq<u8>>;

/// The number that stands for a quote style in [`csv_record_bytes`].
pub open spec fn style_code(style: QuoteStyle) -> u8 {
    match style {
        QuoteStyle::Necessary => 0,
        QuoteStyle::Always => 1,
        QuoteStyle::Never => 2,
    }
}

/// The contents of the fields.
pub open spec fn contents(fields: Seq<Vec<u8>>) -> Seq<Seq<u8>> {
    fields.map_values(|f: Vec<u8>| f@)
}

/// `csv::Writer::write_record` on a writer into memory, built by
/// `csv::WriterBuilder` with the delimiter and the quote style, and
/// `csv::Writer::into_inner` for what was written: the bytes of the record,
/// named by [`csv_record_bytes`].
#[verifier::external_body]
fn csv_record(fields: &Vec<Vec<u8>>, delimiter: u8, style: QuoteStyle) -> (r: Option<Vec<u8>>)
    ensures
        (match r {
            Some(bytes) => Some(bytes@),
            None => None,
        }) == csv_record_bytes(contents(fields@), delimiter, style_code(style)),
{
    let quoting = match style {
        QuoteStyle::Necessary => ::csv::QuoteStyle::Necessary,
        QuoteStyle::Always => ::csv::QuoteStyle::Always,
        QuoteStyle::Never => ::csv::QuoteStyle::Never,
    };
    let mut writer = ::csv::WriterBuilder::new().delimiter(delimiter).quote_style(quoting).from_writer(Vec::new());
    writer.write_record(fields.iter()).ok()?;
    writer.into_inner().ok()
}

/// The names of the fields of a candle.
pub open spec fn ohlc_header() -> Seq<Seq<u8>> {
    seq![
        "timestamp"@.map_values(|c: char| c as u8),
        "open"@.map_values(|c: char| c as u8),
        "high"@.map_values(|c: char| c as u8),
        "low"@.map_values(|c: char| c as u8),
        "close"@.map_values(|c: char| c as u8),
        "volume"@.map_values(|c: char| c as u8),
    ]
}

/// The names of the fields of a tick.
pub open spec fn tick_header() -> Seq<Seq<u8>> {
    seq![
        "timestamp"@.map_values(|c: char| c as u8),
        "price"@.map_values(|c: char| c as u8),
        "volume"@.map_values(|c: char| c as u8),
        "bid"@.map_values(|c: char| c as u8),
        "ask"@.map_values(|c: char| c as u8),
    ]
}

/// The fields of a candle: the timestamp, the four prices and the volume.
pub open spec fn ohlc_fields(candle: OHLC) -> Seq<Seq<u8>> {
    seq![
        integer_text(candle.timestamp as int),
        candle.open.spec_text(),
        candle.high.spec_text(),
        candle.low.spec_text(),
        candle.close.spec_text(),
        integer_text(candle.volume.value as int),
    ]
}

/// The text of a quote: nothing where it is not known.
pub open spec fn quote_text(quote: Option<Price>) -> Seq<u8> {
    match quote {
        Some(p) => p.spec_text(),
        None => Seq::empty(),
    }
}

/// The fields of a tick: the timestamp, the price, the volume and the two
/// quotes.
pub open spec fn tick_fields(tick: Tick) -> Seq<Seq<u8>> {
    seq![
        integer_text(tick.timestamp as int),
        tick.price.spec_text(),
        integer_text(tick.volume.value as int),
        quote_text(tick.bid),
        quote_text(tick.ask),
    ]
}

/// The records one after the other; `None` where one of them could not be
/// written.
pub open spec fn csv_rows(rows: Seq<Seq<Seq<u8>>>, options: CsvOptions) -> Option<Seq<u8>>
    decreases rows.len(),
{
    if rows.len() == 0 {
        Some(Seq::empty())
    } else {
        match (
            csv_rows(rows.drop_last(), options),
            csv_record_bytes(rows.last(), options.delimiter, style_code(options.quote_style)),
        ) {
            (Some(before), Some(record)) => Some(before + record),
            _ => None,
        }
    }
}

/// The document: the header, where the options ask for one, and the rows.
pub open spec fn csv_document(header: Seq<Seq<u8>>, rows: Seq<Seq<Seq<u8>>>, options: CsvOptions) -> Option<
    Seq<u8>,
> {
    if options.include_headers {
        csv_rows(seq![header] + rows, options)
    } else {
        csv_rows(rows, options)
    }
}

/// The bytes of a text of plain letters.
fn letters(text: &str) -> (r: Vec<u8>)
    requires
        text.is_ascii(),
    ensures
        r@ == text@.map_values(|c: char| c as u8),
{
    let bytes = text.as_bytes();
    let mut out: Vec<u8> = Vec::new();
    let mut i: usize = 0;
    while i < bytes.len()
        invariant
            i <= bytes@.len(),
            out@ == bytes@.take(i as int),
        decreases bytes@.len() - i,
    {
        out.push(bytes[i]);
        proof {
            assert(bytes@.take(i as int).push(bytes@[i as int]) == bytes@.take(i + 1));
        }
        i += 1;
    }
    proof {
        assert(bytes@.take(bytes@.len() as int) == bytes@);
        vstd::string::is_ascii_spec_bytes(text);
        assert(bytes@ == text@.map_values(|c: char| c as u8)) by {
            assert(bytes@ =~= Seq::new(text@.len(), |i: int| text@[i] as u8));
        }
    }
    out
}

/// The header of a candle export.
pub fn ohlc_header_fields() -> (r: Vec<Vec<u8>>)
    ensures
        contents(r@) == ohlc_header(),
{
    let mut fields: Vec<Vec<u8>> = Vec::new();
    proof {
        reveal_strlit("timestamp");
        reveal_strlit("open");
        reveal_strlit("high");
        reveal_strlit("low");
        reveal_strlit("close");
        reveal_strlit("volume");
    }
    fields.push(letters("timestamp"));
    fields.push(letters("open"));
    fields.push(letters("high"));
    fields.push(letters("low"));
    fields.push(letters("close"));
    fields.push(letters("volume"));
    proof {
        assert(contents(fields@) =~= ohlc_header());
    }
    fields
}

/// The header of a tick export.
pub fn tick_header_fields() -> (r: Vec<Vec<u8>>)
    ensures
        contents(r@) == tick_header(),
{
    let mut fields: Vec<Vec<u8>> = Vec::new();
    proof {
        reveal_strlit("timestamp");
        reveal_strlit("price");
        reveal_strlit("volume");
        reveal_strlit("bid");
        reveal_strlit("ask");
    }
    fields.push(letters("timestamp"));
    fields.push(letters("price"));
    fields.push(letters("volume"));
    fields.push(letters("bid"));
    fields.push(letters("ask"));
    proof {
        assert(contents(fields@) =~= tick_header());
    }
    fields
}

/// The fields of a candle.
pub fn ohlc_row(candle: &OHLC) -> (r: Vec<Vec<u8>>)
    ensures
        contents(r@) == ohlc_fields(*candle),
{
    let mut fields: Vec<Vec<u8>> = Vec::new();
    fields.push(integer_bytes(candle.timestamp as i128));
    fields.push(candle.open.to_text());
    fields.push(candle.high.to_text());
    fields.push(candle.low.to_text());
    fields.push(candle.close.to_text());
    fields.push(integer_bytes(candle.volume.value as i128));
    proof {
        assert(contents(fields@) =~= ohlc_fields(*candle));
    }
    fields
}

/// The fields of a tick.
pub fn tick_row(tick: &Tick) -> (r: Vec<Vec<u8>>)
    ensures
        contents(r@) == tick_fields(*tick),
{
    let mut fields: Vec<Vec<u8>> = Vec::new();
    fields.push(integer_bytes(tick.timestamp as i128));
    fields.push(tick.price.to_text());
    fields.push(integer_bytes(tick.volume.value as i128));
    fields.push(
        match tick.bid {
            Some(p) => p.to_text(),
            None => Vec::new(),
        },
    );
    fields.push(
        match tick.ask {
            Some(p) => p.to_text(),
            None => Vec::new(),
        },
    );
    proof {
        assert(contents(fields@) =~= tick_fields(*tick));
    }
    fields
}

/// The rows of the candles.
pub open spec fn ohlc_rows(data: Seq<OHLC>) -> Seq<Seq<Seq<u8>>> {
    data.map_values(|c: OHLC| ohlc_fields(c))
}

/// The rows of the ticks.
pub open spec fn tick_rows(data: Seq<Tick>) -> Seq<Seq<Seq<u8>>> {
    data.map_values(|t: Tick| tick_fields(t))
}

impl CsvExporter {
    /// One record as the exporter writes it; `None` where it cannot be
    /// written.
    pub fn record(&self, fields: &Vec<Vec<u8>>) -> (r: Option<Vec<u8>>)
        ensures
            (match r {
                Some(bytes) => Some(bytes@),
                None => None,
            }) == csv_rows(seq![contents(fields@)], self@),
    {
        let options = self.options();
        proof {
            assert(seq![contents(fields@)].drop_last() == Seq::<Seq<Seq<u8>>>::empty());
            assert(csv_rows(Seq::<Seq<Seq<u8>>>::empty(), self@) == Some(Seq::<u8>::empty()));
        }
        match csv_record(fields, options.delimiter, options.quote_style) {
            Some(bytes) => {
                proof {
                    assert(Seq::<u8>::empty() + bytes@ == bytes@);
                }
                Some(bytes)
            },
            None => None,
        }
    }

    /// The candles as a CSV document: the header row, where the options ask
    /// for one, and a row for each candle; `None` where a row cannot be
    /// written.
    pub fn ohlc_document(&self, data: &[OHLC]) -> (r: Option<Vec<u8>>)
        ensures
            (match r {
                Some(bytes) => Some(bytes@),
                None => None,
            }) == csv_document(ohlc_header(), ohlc_rows(data@), self@),
    {
        let options = self.options();
        let mut out: Vec<u8> = Vec::new();
        let ghost mut rows: Seq<Seq<Seq<u8>>> = Seq::empty();
        if options.include_headers {
            let header = ohlc_header_fields();
            match csv_record(&header, options.delimiter, options.quote_style) {
                Some(bytes) => {
                    let mut bytes = bytes;
                    let ghost record = bytes@;
                    out.append(&mut bytes);
                    proof {
                        rows = seq![ohlc_header()];
                        assert(rows.drop_last() == Seq::<Seq<Seq<u8>>>::empty());
                        assert(rows.last() == ohlc_header());
                        assert(Seq::<u8>::empty() + record == record);
                        assert(out@ == record);
                        assert(csv_rows(rows.drop_last(), options) == Some(Seq::<u8>::empty()));
                        assert(csv_rows(rows, options) == Some(out@));
                    }
                },
                None => {
                    proof {
                        assert(seq![ohlc_header()].drop_last() == Seq::<Seq<Seq<u8>>>::empty());
                        assert(seq![ohlc_header()].last() == ohlc_header());
                        lemma_rows_fail(seq![ohlc_header()], ohlc_rows(data@), options);
                    }
                    return None;
                },
            }
        }
        let ghost lead = rows;
        let mut i: usize = 0;
        proof {
            assert(data@.take(0) == Seq::<OHLC>::empty());
            assert(lead + ohlc_rows(data@.take(0)) == lead);
            assert(csv_rows(rows, options) == Some(out@));
        }
        while i < data.len()
            invariant
                i <= data@.len(),
                options == self@,
                lead == (if options.include_headers {
                    seq![ohlc_header()]
                } else {
                    Seq::<Seq<Seq<u8>>>::empty()
                }),
                rows == lead + ohlc_rows(data@.take(i as int)),
                csv_rows(rows, options) == Some(out@),
            decreases data@.len() - i,
        {
            let fields = ohlc_row(&data[i]);
            proof {
                assert(data@.take(i + 1).drop_last() == data@.take(i as int));
                assert(ohlc_rows(data@.take(i + 1)) == ohlc_rows(data@.take(i as int)).push(
                    ohlc_fields(data@[i as int]),
                ));
                assert((lead + ohlc_rows(data@.take(i + 1))).drop_last() == rows);
            }
            match csv_record(&fields, options.delimiter, options.quote_style) {
                Some(bytes) => {
                    let mut bytes = bytes;
                    out.append(&mut bytes);
                },
                None => {
                    proof {
                        assert(data@ == data@.take(i + 1) + data@.skip(i + 1));
                        assert(lead + ohlc_rows(data@) == (lead + ohlc_rows(data@.take(i + 1))) + ohlc_rows(
                            data@.skip(i + 1),
                        ));
                        lemma_rows_fail(lead + ohlc_rows(data@.take(i + 1)), ohlc_rows(data@.skip(i + 1)), options);
                    }
                    return None;
                },
            }
            proof {
                rows = lead + ohlc_rows(data@.take(i + 1));
            }
            i += 1;
        }
        proof {
            assert(data@.take(data@.len() as int) == data@);
            assert(Seq::<Seq<Seq<u8>>>::empty() + ohlc_rows(data@) == ohlc_rows(data@));
        }
        Some(out)
    }

    /// The ticks as a CSV document: the header row, where the options ask
    /// for one, and a row for each tick; `None` where a row cannot be
    /// written.
    pub fn tick_document(&self, data: &[Tick]) -> (r: Option<Vec<u8>>)
        ensures
            (match r {
                Some(bytes) => Some(bytes@),
                None => None,
            }) == csv_document(tick_header(), tick_rows(data@), self@),
    {
        let options = self.options();
        let mut out: Vec<u8> = Vec::new();
        let ghost mut rows: Seq<Seq<Seq<u8>>> = Seq::empty();
        if options.include_headers {
            let header = tick_header_fields();
            match csv_record(&header, options.delimiter, options.quote_style) {
                Some(bytes) => {
                    let mut bytes = bytes;
                    let ghost record = bytes@;
                    out.append(&mut bytes);
                    proof {
                        rows = seq![tick_header()];
                        assert(rows.drop_last() == Seq::<Seq<Seq<u8>>>::empty());
                        assert(rows.last() == tick_header());
                        assert(Seq::<u8>::empty() + record == record);
                        assert(out@ == record);
                        assert(csv_rows(rows.drop_last(), options) == Some(Seq::<u8>::empty()));
                        assert(csv_rows(rows, options) == Some(out@));
                    }
                },
                None => {
                    proof {
                        assert(seq![tick_header()].drop_last() == Seq::<Seq<Seq<u8>>>::empty());
                        assert(seq![tick_header()].last() == tick_header());
                        lemma_rows_fail(seq![tick_header()], tick_rows(data@), options);
                    }
                    return None;
                },
            }
        }
        let ghost lead = rows;
        let mut i: usize = 0;
        proof {
            assert(data@.take(0) == Seq::<Tick>::empty());
            assert(lead + tick_rows(data@.take(0)) == lead);
            assert(csv_rows(rows, options) == Some(out@));
        }
        while i < data.len()
            invariant
                i <= data@.len(),
                options == self@,
                lead == (if options.include_headers {
                    seq![tick_header()]
                } else {
                    Seq::<Seq<Seq<u8>>>::empty()
                }),
                rows == lead + tick_rows(data@.take(i as int)),
                csv_rows(rows, options) == Some(out@),
            decreases data@.len() - i,
        {
            let fields = tick_row(&data[i]);
            proof {
                assert(data@.take(i + 1).drop_last() == data@.take(i as int));
                assert(tick_rows(data@.take(i + 1)) == tick_rows(data@.take(i as int)).push(
                    tick_fields(data@[i as int]),
                ));
                assert((lead + tick_rows(data@.take(i + 1))).drop_last() == rows);
            }
            match csv_record(&fields, options.delimiter, options.quote_style) {
                Some(bytes) => {
                    let mut bytes = bytes;
                    out.append(&mut bytes);
                },
                None => {
                    proof {
                        assert(data@ == data@.take(i + 1) + data@.skip(i + 1));
                        assert(lead + tick_rows(data@) == (lead + tick_rows(data@.take(i + 1))) + tick_rows(
                            data@.skip(i + 1),
                        ));
                        lemma_rows_fail(lead + tick_rows(data@.take(i + 1)), tick_rows(data@.skip(i + 1)), options);
                    }
                    return None;
                },
            }
            proof {
                rows = lead + tick_rows(data@.take(i + 1));
            }
            i += 1;
        }
        proof {
            assert(data@.take(data@.len() as int) == data@);
            assert(Seq::<Seq<Seq<u8>>>::empty() + tick_rows(data@) == tick_rows(data@));
        }
        Some(out)
    }
}

/// Rows that cannot be written cannot be written with further rows behind
/// them.
pub proof fn lemma_rows_fail(rows: Seq<Seq<Seq<u8>>>, more: Seq<Seq<Seq<u8>>>, options: CsvOptions)
    requires
        csv_rows(rows, options).is_none(),
    ensures
        csv_rows(rows + more, options).is_none(),
    decreases more.len(),
{
    if more.len() == 0 {
        assert(rows + more == rows);
    } else {
        lemma_rows_fail(rows, more.drop_last(), options);
        assert((rows + more).drop_last() == rows + more.drop_last());
    }
}

} // verus!
