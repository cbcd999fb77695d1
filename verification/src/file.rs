//! From the bytes of a record file to messages.
//!
//! A file is a table of text fields. Its first row names the columns; each
//! row after it is one message.

use vstd::prelude::*;
use crate::field::ParseError;
use crate::message::{ack_value, decode_ack, decode_hex_field, decode_timestamp, hex_field_value, timestamp_value, Message, MessageView};

verus! {

/// The rows of fields that the bytes of a delimited file hold, the first row
/// included, or `None` where the bytes are no such file.
pub uninterp spec fn csv_table(data: Seq<u8>) -> Option<Seq<Seq<Seq<char>>>>;

/// `csv::Error`, the reason for which the bytes are no table. It is carried
/// through and never looked into.
#[verifier::external_type_specification]
#[verifier::external_body]
pub struct ExCsvError(csv::Error);

/// `csv::Reader::records` on a reader that `csv::ReaderBuilder::from_reader`
/// made over the bytes, with `has_headers` off, so that the first row comes
/// with the others; each field is copied out of its `csv::StringRecord`.
/// Believed: whether the bytes are a table, and which rows of which fields
/// they hold, depends on the bytes alone. What the answer is is named, not
/// described.
#[verifier::external_body]
pub(crate) fn read_table(data: &[u8]) -> (out: Result<Vec<Vec<String>>, csv::Error>)
    ensures
        match out {
            Ok(rows) => csv_table(data@) == Some(rows.deep_view()),
            Err(_) => csv_table(data@) is None,
        },
{
    let mut reader = csv::ReaderBuilder::new().has_headers(false).from_reader(data);
    let mut rows: Vec<Vec<String>> = Vec::new();
    for record in reader.records() {
        rows.push(record?.iter().map(|field| field.to_string()).collect());
    }
    Ok(rows)
}

/// Whether column `i` of the header, and no other, has the name `name`.
pub open spec fn names_column(header: Seq<Seq<char>>, name: Seq<char>, i: int) -> bool {
    &&& 0 <= i < header.len()
    &&& header[i] == name
    &&& forall|j: int| 0 <= j < header.len() && j != i ==> header[j] != name
}

/// The column with the given name, where exactly one has it.
pub fn find_column(header: &Vec<String>, name: &str) -> (out: Option<usize>)
    ensures
        match out {
            Some(i) => names_column(header.deep_view(), name@, i as int),
            None => forall|i: int| !names_column(header.deep_view(), name@, i),
        },
{
    let wanted = name.to_string();
    let mut found: Option<usize> = None;
    let mut i: usize = 0;
    while i < header.len()
        invariant
            i <= header.len(),
            wanted@ == name@,
            match found {
                Some(k) => k < i && header.deep_view()[k as int] == name@ && forall|j: int|
                    0 <= j < i && j != k ==> header.deep_view()[j] != name@,
                None => forall|j: int| 0 <= j < i ==> header.deep_view()[j] != name@,
            },
        decreases header.len() - i,
    {
        if header[i] == wanted {
            match found {
                Some(k) => {
                    assert forall|c: int| !names_column(header.deep_view(), name@, c) by {
                        if c == k as int {
                            assert(header.deep_view()[i as int] == name@);
                        } else {
                            assert(header.deep_view()[k as int] == name@);
                        }
                    }
                    return None;
                },
                None => {
                    found = Some(i);
                },
            }
        }
        i += 1;
    }
    found
}

/// Where each of the six columns of a message stands in a row.
#[derive(Clone, Copy, Debug, PartialEq, Eq, Structural)]
pub struct Columns {
    pub timestamp: usize,
    pub id: usize,
    pub data: usize,
    pub crc: usize,
    pub ack: usize,
    pub speed: usize,
}

/// Whether `columns` gives, for each of the names `timestamp`, `id`, `data`,
/// `crc`, `ack` and `speed`, the one column of the header with that name.
pub open spec fn locates(header: Seq<Seq<char>>, columns: Columns) -> bool {
    &&& names_column(header, "timestamp"@, columns.timestamp as int)
    &&& names_column(header, "id"@, columns.id as int)
    &&& names_column(header, "data"@, columns.data as int)
    &&& names_column(header, "crc"@, columns.crc as int)
    &&& names_column(header, "ack"@, columns.ack as int)
    &&& names_column(header, "speed"@, columns.speed as int)
}

/// The columns of a header, where each of the six names stands in it once.
pub open spec fn header_columns(header: Seq<Seq<char>>) -> Option<Columns> {
    if exists|columns: Columns| locates(header, columns) {
        Some(choose|columns: Columns| locates(header, columns))
    } else {
        None
    }
}

/// A header has its six columns in one way at most.
pub proof fn lemma_columns_unique(header: Seq<Seq<char>>, a: Columns, b: Columns)
    requires
        locates(header, a),
        locates(header, b),
    ensures
        a == b,
{
}

/// Finds the six columns of a message in the header of a file.
pub fn locate_columns(header: &Vec<String>) -> (out: Option<Columns>)
    ensures
        out == header_columns(header.deep_view()),
{
    let ghost names = header.deep_view();
    let timestamp = find_column(header, "timestamp");
    let id = find_column(header, "id");
    let data = find_column(header, "data");
    let crc = find_column(header, "crc");
    let ack = find_column(header, "ack");
    let speed = find_column(header, "speed");
    match (timestamp, id, data, crc, ack, speed) {
        (Some(timestamp), Some(id), Some(data), Some(crc), Some(ack), Some(speed)) => {
            let columns = Columns { timestamp, id, data, crc, ack, speed };
            proof {
                assert(locates(names, columns));
                lemma_columns_unique(names, columns, header_columns(names)->Some_0);
            }
            Some(columns)
        },
        _ => {
            assert forall|columns: Columns| !locates(names, columns) by {}
            None
        },
    }
}

/// The message that a row stands for under the given columns: the
/// timestamp as written, where it is a number; the identifier, payload and
/// checksum decoded from hex; the acknowledgement from its word; the speed
/// as written. `None` where the row is too short for a column or a field
/// does not decode.
pub open spec fn row_message(columns: Columns, row: Seq<Seq<char>>) -> Option<MessageView> {
    if columns.timestamp < row.len() && columns.id < row.len() && columns.data < row.len()
        && columns.crc < row.len() && columns.ack < row.len() && columns.speed < row.len() {
        match (
            timestamp_value(row[columns.timestamp as int]),
            hex_field_value(row[columns.id as int]),
            hex_field_value(row[columns.data as int]),
            hex_field_value(row[columns.crc as int]),
            ack_value(row[columns.ack as int]),
        ) {
            (Some(timestamp), Some(id), Some(data), Some(crc), Some(ack)) => Some(
                MessageView {
                    timestamp,
                    id,
                    data,
                    crc,
                    ack,
                    speed: row[columns.speed as int],
                },
            ),
            _ => None,
        }
    } else {
        None
    }
}

/// Decodes one row of a file.
pub fn decode_row(columns: &Columns, row: &Vec<String>) -> (out: Result<Message, ParseError>)
    ensures
        match out {
            Ok(message) => row_message(*columns, row.deep_view()) == Some(message@),
            Err(_) => row_message(*columns, row.deep_view()) is None,
        },
{
    let width: usize = row.len();
    if !(columns.timestamp < width && columns.id < width && columns.data < width && columns.crc
        < width && columns.ack < width && columns.speed < width) {
        return Err(ParseError {  });
    }
    let timestamp = match decode_timestamp(row[columns.timestamp].as_str()) {
        Ok(timestamp) => timestamp,
        Err(e) => {
            return Err(e);
        },
    };
    let id = match decode_hex_field(row[columns.id].as_str()) {
        Ok(id) => id,
        Err(e) => {
            return Err(e);
        },
    };
    let data = match decode_hex_field(row[columns.data].as_str()) {
        Ok(data) => data,
        Err(e) => {
            return Err(e);
        },
    };
    let crc = match decode_hex_field(row[columns.crc].as_str()) {
        Ok(crc) => crc,
        Err(e) => {
            return Err(e);
        },
    };
    let ack = match decode_ack(row[columns.ack].as_str()) {
        Ok(ack) => ack,
        Err(e) => {
            return Err(e);
        },
    };
    Ok(
        Message {
            timestamp,
            id,
            data,
            crc,
            ack,
            speed: row[columns.speed].clone(),
        },
    )
}

/// Whether the rows of `table` from the second to just before `end` all
/// stand for messages under the columns of the first row.
pub open spec fn rows_decode(table: Seq<Seq<Seq<char>>>, end: nat) -> bool {
    end <= 1 || {
        &&& header_columns(table[0]) is Some
        &&& forall|i: int| 1 <= i < end ==> row_message(header_columns(table[0])->Some_0, #[trigger] table[i]) is Some
    }
}

/// The messages of the rows of `table` from the second to just before
/// `end`, in their order.
pub open spec fn rows_messages(table: Seq<Seq<Seq<char>>>, end: nat) -> Seq<MessageView> {
    Seq::new(
        if end <= 1 { 0nat } else { (end - 1) as nat },
        |i: int| row_message(header_columns(table[0])->Some_0, table[i + 1])->Some_0,
    )
}

/// The messages of a table: one for each row after the first, in order.
/// `None` where there is such a row and the first row does not name the six
/// columns, each once, or some row does not stand for a message.
pub open spec fn table_messages(table: Seq<Seq<Seq<char>>>) -> Option<Seq<MessageView>> {
    if rows_decode(table, table.len()) {
        Some(rows_messages(table, table.len()))
    } else {
        None
    }
}

/// The messages of a file: those of its table. `None` where the bytes are no
/// table or the table does not decode.
pub open spec fn file_messages(data: Seq<u8>) -> Option<Seq<MessageView>> {
    match csv_table(data) {
        Some(table) => table_messages(table),
        None => None,
    }
}

/// How far a load has come: the rows decoded so far, of how many.
#[derive(Clone, Copy, Debug, PartialEq, Eq, Structural)]
pub struct Progress {
    pub done: usize,
    pub total: usize,
}

impl Progress {
    /// Nothing done of nothing: the progress of a load that has not begun.
    pub fn none() -> (out: Progress)
        ensures
            out == (Progress { done: 0, total: 0 }),
    {
        Progress { done: 0, total: 0 }
    }

    /// All done: the progress of a load that has ended well.
    pub fn complete() -> (out: Progress)
        ensures
            out == (Progress { done: 1, total: 1 }),
    {
        Progress { done: 1, total: 1 }
    }

    /// The part done in thousandths, rounded down; 0 where there is nothing
    /// to do, and 1000 at most.
    pub open spec fn spec_per_mille(self) -> int {
        if self.total == 0 {
            0
        } else if self.done >= self.total {
            1000
        } else {
            self.done * 1000 / (self.total as int)
        }
    }

    /// The part done in thousandths.
    pub fn per_mille(&self) -> (out: u32)
        ensures
            out == self.spec_per_mille(),
    {
        if self.total == 0 {
            0
        } else if self.done >= self.total {
            1000
        } else {
            let done: u128 = self.done as u128;
            let total: u128 = self.total as u128;
            assert(done as int * 1000 / (total as int) < 1000) by (nonlinear_arith)
                requires
                    0 <= done < total,
            ;
            assert(done * 1000 <= 0xffff_ffff_ffff_ffff * 1000) by (nonlinear_arith)
                requires
                    done <= 0xffff_ffff_ffff_ffff,
            ;
            (done * 1000 / total) as u32
        }
    }
}

/// A file that is being decoded row by row.
pub struct FileDecoder {
    rows: Vec<Vec<String>>,
    columns: Option<Columns>,
    messages: Vec<Message>,
}

impl FileDecoder {
    /// The table that is being decoded.
    pub closed spec fn table(&self) -> Seq<Seq<Seq<char>>> {
        self.rows.deep_view()
    }

    /// The messages decoded so far.
    pub closed spec fn decoded(&self) -> Seq<MessageView> {
        self.messages.deep_view()
    }

    /// The decoder knows the columns of its table.
    pub closed spec fn columns_known(&self) -> bool {
        self.rows.len() <= 1 || self.columns == header_columns(self.rows.deep_view()[0])
    }

    /// The decoder has decoded the first rows of its table, and holds their
    /// messages.
    pub open spec fn wf(&self) -> bool {
        &&& self.columns_known()
        &&& self.decoded().len() <= self.spec_total()
        &&& rows_decode(self.table(), self.decoded().len() + 1)
        &&& self.decoded() == rows_messages(self.table(), self.decoded().len() + 1)
    }

    /// The number of rows to decode: those after the first.
    pub open spec fn spec_total(&self) -> int {
        if self.table().len() == 0 {
            0
        } else {
            self.table().len() - 1
        }
    }

    /// Takes the bytes of a file apart into rows. Fails where the bytes are
    /// no table.
    pub fn open(data: &[u8]) -> (out: Result<FileDecoder, ParseError>)
        ensures
            match out {
                Ok(decoder) => decoder.wf() && csv_table(data@) == Some(decoder.table())
                    && decoder.decoded().len() == 0,
                Err(_) => csv_table(data@) is None,
            },
    {
        match read_table(data) {
            Ok(rows) => Ok(FileDecoder::from_rows(rows)),
            Err(_) => Err(ParseError {  }),
        }
    }

    /// A decoder for a table that is already in rows.
    pub fn from_rows(rows: Vec<Vec<String>>) -> (out: FileDecoder)
        ensures
            out.wf(),
            out.table() == rows.deep_view(),
            out.decoded().len() == 0,
    {
        let columns = if rows.len() > 1 {
            locate_columns(&rows[0])
        } else {
            None
        };
        let out = FileDecoder { rows, columns, messages: Vec::new() };
        assert(out.messages.deep_view() =~= rows_messages(out.rows.deep_view(), 1));
        out
    }

    /// How far the decoding has come.
    pub fn progress(&self) -> (out: Progress)
        ensures
            out.done == self.decoded().len(),
            out.total == self.spec_total(),
    {
        let total: usize = if self.rows.len() == 0 {
            0
        } else {
            self.rows.len() - 1
        };
        Progress { done: self.messages.len(), total }
    }

    /// Whether every row has been decoded.
    pub fn is_done(&self) -> (out: bool)
        requires
            self.wf(),
        ensures
            out == (self.decoded().len() == self.spec_total()),
    {
        self.rows.len() == 0 || self.messages.len() == self.rows.len() - 1
    }

    /// Decodes the next row. Fails, and leaves the decoder as it was, where
    /// that row does not stand for a message.
    pub fn decode_next(&mut self) -> (out: Result<(), ParseError>)
        requires
            old(self).wf(),
            old(self).decoded().len() < old(self).spec_total(),
        ensures
            final(self).wf(),
            final(self).table() == old(self).table(),
            match out {
                Ok(_) => final(self).decoded().len() == old(self).decoded().len() + 1,
                Err(_) => final(self).decoded() == old(self).decoded() && !rows_decode(
                    old(self).table(),
                    old(self).decoded().len() + 2,
                ),
            },
    {
        assert(self.messages.deep_view().len() == self.messages.len());
        assert(self.rows.deep_view().len() == self.rows.len());
        let next: usize = self.messages.len() + 1;
        let ghost table = self.rows.deep_view();
        let ghost before = self.messages.deep_view();
        let columns = match self.columns {
            Some(columns) => columns,
            None => {
                return Err(ParseError {  });
            },
        };
        match decode_row(&columns, &self.rows[next]) {
            Ok(message) => {
                self.messages.push(message);
                proof {
                    assert(table[next as int] == self.rows[next as int].deep_view());
                    assert(self.messages.deep_view() =~= before.push(message@));
                    assert(self.messages.deep_view() =~= rows_messages(table, (next + 1) as nat));
                }
                Ok(())
            },
            Err(e) => {
                proof {
                    assert(table[next as int] == self.rows[next as int].deep_view());
                }
                Err(e)
            },
        }
    }

    /// The messages of the file, once every row has been decoded.
    pub fn into_messages(self) -> (out: Vec<Message>)
        requires
            self.wf(),
            self.decoded().len() == self.spec_total(),
        ensures
            table_messages(self.table()) == Some(out.deep_view()),
            out.deep_view() == self.decoded(),
    {
        self.messages
    }
}

/// Decodes a table of rows into messages.
pub fn decode_table(rows: Vec<Vec<String>>) -> (out: Result<Vec<Message>, ParseError>)
    ensures
        match out {
            Ok(messages) => table_messages(rows.deep_view()) == Some(messages.deep_view()),
            Err(_) => table_messages(rows.deep_view()) is None,
        },
{
    let mut decoder = FileDecoder::from_rows(rows);
    while !decoder.is_done()
        invariant
            decoder.wf(),
            decoder.table() == rows.deep_view(),
        decreases decoder.spec_total() - decoder.decoded().len(),
    {
        match decoder.decode_next() {
            Ok(_) => {},
            Err(e) => {
                return Err(e);
            },
        }
    }
    Ok(decoder.into_messages())
}

/// Decodes the bytes of a file into messages.
pub fn parse_file(data: &[u8]) -> (out: Result<Vec<Message>, ParseError>)
    ensures
        match out {
            Ok(messages) => file_messages(data@) == Some(messages.deep_view()),
            Err(_) => file_messages(data@) is None,
        },
{
    match read_table(data) {
        Ok(rows) => decode_table(rows),
        Err(_) => Err(ParseError {  }),
    }
}

} // verus!
