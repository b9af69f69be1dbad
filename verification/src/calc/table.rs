//! Reading the table of distribution periods.
//!
//! The table is a text of lines, each an age and the distribution period for
//! that age with a comma between them, under a first line that names the two
//! columns `Age` and `Distribution Period`.
use crate::decimal::{amount, read_amount, read_unsigned, unsigned};
use crate::text::{chars_of, contains, pieces, same_text, split, text_of, texts_of};
use std::collections::HashMap;
use vstd::prelude::*;

verus! {

broadcast use vstd::std_specs::hash::group_hash_axioms;

/// Why a table of distribution periods cannot be read.
#[derive(Clone, Copy, PartialEq, Eq, Debug, Structural)]
pub enum TableError {
    /// The first two columns are not named `Age` and `Distribution Period`.
    Header,
    /// An age is not a whole number below 2 to the 32nd.
    Age,
    /// A distribution period is not a decimal number that can be stored.
    Period,
}

/// A row as a line: a row that a line feed has ended loses a carriage return
/// that stands at its end.
pub open spec fn line_of(row: Seq<char>, ended: bool) -> Seq<char> {
    if ended && row.len() > 0 && row.last() == '\r' {
        row.drop_last()
    } else {
        row
    }
}

/// What has been read of a table.
pub struct TableRead {
    /// The names of the columns, once their line has been read.
    pub header: Option<Seq<Seq<char>>>,
    /// The distribution period for each age, in millionths of a year.
    pub periods: Map<u32, i64>,
}

/// Reads one line of a table.
///
/// A line without a comma is passed over. The first other line names the
/// columns. Every line after it gives an age and its period, which replaces an
/// earlier period for the same age; it is an error if the columns have other
/// names than expected, and if the age or the period cannot be read.
pub open spec fn line_read(state: TableRead, line: Seq<char>) -> Result<TableRead, TableError> {
    let fields = pieces(line, ',');
    if !line.contains(',') || fields.len() <= 1 {
        Ok(state)
    } else {
        match state.header {
            None => Ok(TableRead { header: Some(fields), ..state }),
            Some(header) => if !(header.len() >= 2 && header[0] == "Age"@ && header[1]
                == "Distribution Period"@) {
                Err(TableError::Header)
            } else {
                match unsigned(fields[0]) {
                    None => Err(TableError::Age),
                    Some(age) => match amount(fields[1]) {
                        None => Err(TableError::Period),
                        Some(period) => Ok(
                            TableRead { periods: state.periods.insert(age, period), ..state },
                        ),
                    },
                }
            },
        }
    }
}

/// Reads the first `count` rows of a table. Every row but the last has been
/// ended by a line feed.
pub open spec fn lines_read(rows: Seq<Seq<char>>, count: nat) -> Result<TableRead, TableError>
    decreases count,
{
    if count == 0 {
        Ok(TableRead { header: None, periods: Map::empty() })
    } else {
        match lines_read(rows, (count - 1) as nat) {
            Err(error) => Err(error),
            Ok(state) => line_read(state, line_of(rows[count - 1], count < rows.len())),
        }
    }
}

/// The distribution periods that a text gives, by age.
pub open spec fn table_read(text: Seq<char>) -> Result<Map<u32, i64>, TableError> {
    match lines_read(pieces(text, '\n'), pieces(text, '\n').len()) {
        Ok(state) => Ok(state.periods),
        Err(error) => Err(error),
    }
}

/// Once a line cannot be read, the table cannot be read.
proof fn lemma_line_error_stays(rows: Seq<Seq<char>>, at: nat, count: nat)
    requires
        at <= count,
        lines_read(rows, at) is Err,
    ensures
        lines_read(rows, count) == lines_read(rows, at),
    decreases count - at,
{
    if at < count {
        lemma_line_error_stays(rows, at, (count - 1) as nat);
    }
}

/// The first `count` characters of a text.
fn head(text: &Vec<char>, count: usize) -> (r: Vec<char>)
    requires
        count <= text@.len(),
    ensures
        r@ == text@.take(count as int),
{
    let mut first: Vec<char> = Vec::new();
    let mut i: usize = 0;
    while i < count
        invariant
            i <= count <= text@.len(),
            first@ == text@.take(i as int),
        decreases count - i,
    {
        first.push(text[i]);
        assert(first@ =~= text@.take(i + 1));
        i = i + 1;
    }
    first
}

/// Whether the first two columns have the names that a table must give them.
fn is_header(header: &Vec<Vec<char>>) -> (r: bool)
    ensures
        r == (header@.len() >= 2 && header@[0]@ == "Age"@ && header@[1]@
            == "Distribution Period"@),
{
    if header.len() < 2 {
        return false;
    }
    let first = text_of(&header[0]);
    let second = text_of(&header[1]);
    same_text(first.as_str(), "Age") && same_text(second.as_str(), "Distribution Period")
}

/// Reads the table of distribution periods: for each age the period, in
/// millionths of a year.
pub fn distribution_table(text: &str) -> (r: Result<HashMap<u32, i64>, TableError>)
    ensures
        match table_read(text@) {
            Ok(periods) => r matches Ok(table) && table@ == periods,
            Err(error) => r matches Err(e) && e == error,
        },
{
    let chars = chars_of(text);
    let rows = split(&chars, '\n');
    let mut header: Option<Vec<Vec<char>>> = None;
    let mut table: HashMap<u32, i64> = HashMap::new();
    let ghost mut state = TableRead { header: None, periods: Map::empty() };
    let mut i: usize = 0;
    assert(table@ =~= state.periods);
    while i < rows.len()
        invariant
            i <= rows@.len(),
            texts_of(rows@) == pieces(text@, '\n'),
            lines_read(texts_of(rows@), i as nat) == Ok::<TableRead, TableError>(state),
            table@ == state.periods,
            match state.header {
                Some(names) => header matches Some(kept) && texts_of(kept@) == names,
                None => header is None,
            },
        decreases rows@.len() - i,
    {
        let row = &rows[i];
        assert(texts_of(rows@)[i as int] == row@);
        assert(texts_of(rows@).len() == rows@.len());
        let ended = i + 1 < rows.len();
        let line = if ended && row.len() > 0 && row[row.len() - 1] == '\r' {
            assert(row@.take(row@.len() - 1) =~= row@.drop_last());
            head(row, row.len() - 1)
        } else {
            assert(row@.take(row@.len() as int) =~= row@);
            head(row, row.len())
        };
        assert(line@ == line_of(row@, ended));
        if contains(&line, ',') {
            let fields = split(&line, ',');
            if fields.len() > 1 {
                assert(texts_of(fields@)[0] == fields@[0]@);
                assert(texts_of(fields@)[1] == fields@[1]@);
                match &header {
                    None => {
                        proof {
                            state = TableRead { header: Some(texts_of(fields@)), ..state };
                        }
                        header = Some(fields);
                    },
                    Some(names) => {
                        proof {
                            assert(texts_of(names@).len() == names@.len());
                            if names@.len() >= 2 {
                                assert(texts_of(names@)[0] == names@[0]@);
                                assert(texts_of(names@)[1] == names@[1]@);
                            }
                        }
                        if !is_header(names) {
                            proof {
                                lemma_line_error_stays(
                                    texts_of(rows@),
                                    (i + 1) as nat,
                                    rows@.len(),
                                );
                            }
                            return Err(TableError::Header);
                        }
                        let age: u32 = match read_unsigned(&fields[0]) {
                            Some(age) => age,
                            None => {
                                proof {
                                    lemma_line_error_stays(
                                        texts_of(rows@),
                                        (i + 1) as nat,
                                        rows@.len(),
                                    );
                                }
                                return Err(TableError::Age);
                            },
                        };
                        let period: i64 = match read_amount(&fields[1]) {
                            Some(period) => period,
                            None => {
                                proof {
                                    lemma_line_error_stays(
                                        texts_of(rows@),
                                        (i + 1) as nat,
                                        rows@.len(),
                                    );
                                }
                                return Err(TableError::Period);
                            },
                        };
                        table.insert(age, period);
                        proof {
                            state = TableRead {
                                periods: state.periods.insert(age, period),
                                ..state
                            };
                        }
                    },
                }
            }
        }
        i = i + 1;
    }
    Ok(table)
}

} // verus!
