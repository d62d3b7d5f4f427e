//! File ingestors: a whole raw file into an ordered record collection.
//!
//! A file arrives as bytes in the legacy Shift_JIS encoding.  It is decoded
//! to text, parsed as comma-separated rows (first row a header, cells
//! trimmed), and each row is decoded in file order.  The first row whose
//! decode fails aborts the whole file: a partially decoded import has no
//! meaning downstream.  Decoding the supplementary file needs the identity
//! index built from the fully decoded primary collection.

use vstd::prelude::*;

use crate::correlate::{accidents_index_map, build_identity_index, IdentityIndex, NaturalKey};
use crate::errors::DecodeError;
use crate::models::{RawAccident, RawInvolvedPerson};
use crate::rows::{
    accident_row_ok, accident_row_result_matches, lemma_accident_decode_deterministic,
    lemma_person_decode_deterministic, person_row_ok, person_row_result_matches,
    row_to_accident, row_to_involved_person,
};
use crate::table::CodeTable;

verus! {

/// The text that Shift_JIS decoding gives for a byte sequence.  The decoding
/// is a function of the bytes alone.
pub uninterp spec fn shift_jis_text_of(bytes: Seq<u8>) -> Seq<char>;

/// Relies on `encoding_rs::SHIFT_JIS.decode`: it decodes a complete byte
/// buffer to text (honouring a leading byte-order mark of another encoding,
/// which these files do not carry), replacing malformed sequences with the
/// replacement character; the result depends on the bytes alone.  Its only
/// panic is an overflowing size calculation for the backing buffer, ruled
/// out by the length bound.
#[verifier::external_body]
fn decode_shift_jis(bytes: &Vec<u8>) -> (r: String)
    requires
        bytes@.len() < 0x1000_0000_0000_0000,
    ensures
        r@ == shift_jis_text_of(bytes@),
{
    let (text, _, _) = encoding_rs::SHIFT_JIS.decode(bytes.as_slice());
    text.into_owned()
}

/// The rows that comma-separated-value parsing gives for a text: the cells
/// of each record after the header row, whitespace-trimmed; nothing when
/// the text is not well-formed (for instance, rows of unequal width).  The
/// outcome is a function of the text alone.
pub uninterp spec fn csv_records_of(text: Seq<char>) -> Option<Seq<Seq<Seq<char>>>>;

#[verifier::external_type_specification]
#[verifier::external_body]
pub struct ExCsvError(csv::Error);

/// Relies on `csv::ReaderBuilder` and `csv::Reader::records`: reading from
/// an in-memory buffer with a header row and whitespace trimming, parsing
/// is deterministic in the text; each record yields its cells in order, and
/// a malformed record yields an error.
#[verifier::external_body]
fn parse_csv_records(text: &str) -> (r: Result<Vec<Vec<String>>, csv::Error>)
    ensures
        match r {
            Ok(rows) => csv_records_of(text@) == Some(rows.deep_view()),
            Err(_) => csv_records_of(text@) is None,
        },
{
    let mut reader = csv::ReaderBuilder::new().has_headers(true).trim(csv::Trim::All).from_reader(
        text.as_bytes(),
    );
    let mut rows: Vec<Vec<String>> = Vec::new();
    for record in reader.records() {
        rows.push(record?.iter().map(|cell| cell.to_string()).collect());
    }
    Ok(rows)
}

/// A fully successful primary decode: one accident per row, in file order,
/// each matching its row.
pub open spec fn accidents_decode_ok(
    rows: Seq<Seq<Seq<char>>>,
    cities: Map<Seq<char>, Seq<char>>,
    accs: Seq<RawAccident>,
) -> bool {
    &&& accs.len() == rows.len()
    &&& forall|i: int|
        0 <= i < rows.len() ==> accident_row_result_matches(
            Ok(#[trigger] accs[i]),
            rows[i],
            cities,
            i,
        )
}

/// A failed primary decode: every row before the first failing one decodes,
/// and the error is that row's.
pub open spec fn accidents_decode_err(
    rows: Seq<Seq<Seq<char>>>,
    cities: Map<Seq<char>, Seq<char>>,
    e: DecodeError,
) -> bool {
    exists|k: int|
        {
            &&& 0 <= k < rows.len()
            &&& !accident_row_ok(rows[k], cities)
            &&& #[trigger] accident_row_result_matches(Err(e), rows[k], cities, k)
            &&& forall|j: int| 0 <= j < k ==> accident_row_ok(#[trigger] rows[j], cities)
        }
}

/// Reads a whole primary file (Shift_JIS bytes) into its ordered accident
/// collection.
///
/// Succeeds exactly when the text parses into rows and every row decodes;
/// row order is kept.  The first failing row aborts the file with that
/// row's error; no partial collection is returned.
pub fn read_accidents(file: &Vec<u8>, cities: &CodeTable) -> (r: Result<
    Vec<RawAccident>,
    DecodeError,
>)
    requires
        file@.len() < 0x1000_0000_0000_0000,
    ensures
        ({
            let text = shift_jis_text_of(file@);
            match csv_records_of(text) {
                None => r == Err::<Vec<RawAccident>, DecodeError>(DecodeError::MalformedText),
                Some(rows) => match r {
                    Ok(accidents) => accidents_decode_ok(rows, cities@, accidents@),
                    Err(e) => accidents_decode_err(rows, cities@, e),
                },
            }
        }),
{
    let text = decode_shift_jis(file);
    let rows = match parse_csv_records(text.as_str()) {
        Ok(rows) => rows,
        Err(_) => {
            return Err(DecodeError::MalformedText);
        },
    };
    let ghost rowsv = rows.deep_view();
    let mut accidents: Vec<RawAccident> = Vec::new();
    let mut i: usize = 0;
    while i < rows.len()
        invariant
            i <= rows@.len(),
            rowsv == rows.deep_view(),
            csv_records_of(shift_jis_text_of(file@)) == Some(rowsv),
            accidents@.len() == i,
            forall|j: int|
                0 <= j < i ==> accident_row_result_matches(
                    Ok(#[trigger] accidents@[j]),
                    rowsv[j],
                    cities@,
                    j,
                ),
            forall|j: int| 0 <= j < i ==> accident_row_ok(#[trigger] rowsv[j], cities@),
        decreases rows@.len() - i,
    {
        match row_to_accident(&rows[i], i, cities) {
            Ok(a) => {
                accidents.push(a);
            },
            Err(e) => {
                proof {
                    assert(accident_row_result_matches(
                        Err::<RawAccident, DecodeError>(e),
                        rowsv[i as int],
                        cities@,
                        i as int,
                    ));
                }
                return Err(e);
            },
        }
        i = i + 1;
    }
    Ok(accidents)
}

/// A fully successful supplementary decode against an identity index: one
/// involved person per row, in file order, each matching its row.
pub open spec fn persons_decode_ok(
    rows: Seq<Seq<Seq<char>>>,
    index: Map<NaturalKey, u128>,
    persons: Seq<RawInvolvedPerson>,
) -> bool {
    &&& persons.len() == rows.len()
    &&& forall|i: int|
        0 <= i < rows.len() ==> person_row_result_matches(
            Ok(#[trigger] persons[i]),
            rows[i],
            index,
            i,
        )
}

/// A failed supplementary decode: every row before the first failing one
/// decodes, and the error is that row's.
pub open spec fn persons_decode_err(
    rows: Seq<Seq<Seq<char>>>,
    index: Map<NaturalKey, u128>,
    e: DecodeError,
) -> bool {
    exists|k: int|
        {
            &&& 0 <= k < rows.len()
            &&& !person_row_ok(rows[k], index)
            &&& #[trigger] person_row_result_matches(Err(e), rows[k], index, k)
            &&& forall|j: int| 0 <= j < k ==> person_row_ok(#[trigger] rows[j], index)
        }
}

/// Reads a whole supplementary file (Shift_JIS bytes) into its ordered
/// involved-person collection, resolving each row's parent through the
/// identity index.
///
/// Succeeds exactly when the text parses into rows and every row decodes,
/// its composite key included; row order is kept.  The first failing row
/// aborts the file with that row's error.
pub fn read_involved_persons(file: &Vec<u8>, accident_ids: &IdentityIndex) -> (r: Result<
    Vec<RawInvolvedPerson>,
    DecodeError,
>)
    requires
        file@.len() < 0x1000_0000_0000_0000,
    ensures
        ({
            let text = shift_jis_text_of(file@);
            match csv_records_of(text) {
                None => r == Err::<Vec<RawInvolvedPerson>, DecodeError>(DecodeError::MalformedText),
                Some(rows) => match r {
                    Ok(persons) => persons_decode_ok(rows, accident_ids@, persons@),
                    Err(e) => persons_decode_err(rows, accident_ids@, e),
                },
            }
        }),
{
    let text = decode_shift_jis(file);
    let rows = match parse_csv_records(text.as_str()) {
        Ok(rows) => rows,
        Err(_) => {
            return Err(DecodeError::MalformedText);
        },
    };
    let ghost rowsv = rows.deep_view();
    let mut persons: Vec<RawInvolvedPerson> = Vec::new();
    let mut i: usize = 0;
    while i < rows.len()
        invariant
            i <= rows@.len(),
            rowsv == rows.deep_view(),
            csv_records_of(shift_jis_text_of(file@)) == Some(rowsv),
            persons@.len() == i,
            forall|j: int|
                0 <= j < i ==> person_row_result_matches(
                    Ok(#[trigger] persons@[j]),
                    rowsv[j],
                    accident_ids@,
                    j,
                ),
            forall|j: int| 0 <= j < i ==> person_row_ok(#[trigger] rowsv[j], accident_ids@),
        decreases rows@.len() - i,
    {
        match row_to_involved_person(&rows[i], i, accident_ids) {
            Ok(p) => {
                persons.push(p);
            },
            Err(e) => {
                proof {
                    assert(person_row_result_matches(
                        Err::<RawInvolvedPerson, DecodeError>(e),
                        rowsv[i as int],
                        accident_ids@,
                        i as int,
                    ));
                }
                return Err(e);
            },
        }
        i = i + 1;
    }
    Ok(persons)
}

/// Decodes one whole import: the primary file, then the identity index
/// built from its full collection, then the supplementary file against that
/// index.  Both collections are returned together; the caller hands them to
/// storage as one unit.
///
/// Succeeds exactly when both files fully decode; the first fatal error
/// anywhere aborts the run with one precise diagnostic and nothing is
/// returned.
pub fn decode_import(
    main_file: &Vec<u8>,
    support_file: &Vec<u8>,
    cities: &CodeTable,
) -> (r: Result<(Vec<RawAccident>, Vec<RawInvolvedPerson>), DecodeError>)
    requires
        main_file@.len() < 0x1000_0000_0000_0000,
        support_file@.len() < 0x1000_0000_0000_0000,
    ensures
        ({
            let main_text = shift_jis_text_of(main_file@);
            let support_text = shift_jis_text_of(support_file@);
            match r {
                Ok((accidents, persons)) => {
                    &&& csv_records_of(main_text) matches Some(rows) && accidents_decode_ok(
                        rows,
                        cities@,
                        accidents@,
                    )
                    &&& csv_records_of(support_text) matches Some(rows) && persons_decode_ok(
                        rows,
                        accidents_index_map(accidents@),
                        persons@,
                    )
                },
                Err(e) => {
                    ||| (csv_records_of(main_text) is None && e == DecodeError::MalformedText)
                    ||| (csv_records_of(main_text) matches Some(rows) && accidents_decode_err(
                        rows,
                        cities@,
                        e,
                    ))
                    ||| (csv_records_of(main_text) is Some && exists|accs: Seq<RawAccident>|
                        {
                            &&& #[trigger] accidents_decode_ok(
                                csv_records_of(main_text).unwrap(),
                                cities@,
                                accs,
                            )
                            &&& {
                                ||| (csv_records_of(support_text) is None && e
                                    == DecodeError::MalformedText)
                                ||| (csv_records_of(support_text) matches Some(rows)
                                    && persons_decode_err(rows, accidents_index_map(accs), e))
                            }
                        })
                },
            }
        }),
{
    let accidents = match read_accidents(main_file, cities) {
        Ok(accidents) => accidents,
        Err(e) => {
            return Err(e);
        },
    };
    let accident_ids = build_identity_index(&accidents);
    let persons = match read_involved_persons(support_file, &accident_ids) {
        Ok(persons) => persons,
        Err(e) => {
            proof {
                assert(csv_records_of(shift_jis_text_of(main_file@)) matches Some(rows)
                    && accidents_decode_ok(rows, cities@, accidents@));
            }
            return Err(e);
        },
    };
    Ok((accidents, persons))
}

/// Ingestion determinism (primary): decoding the same rows twice with the
/// same administrative-code table gives collections of equal length whose
/// records agree pairwise on every field; only the generated surrogate
/// identifiers may differ.
pub proof fn lemma_accidents_decode_deterministic(
    rows: Seq<Seq<Seq<char>>>,
    cities: Map<Seq<char>, Seq<char>>,
    a: Seq<RawAccident>,
    b: Seq<RawAccident>,
)
    requires
        accidents_decode_ok(rows, cities, a),
        accidents_decode_ok(rows, cities, b),
    ensures
        a.len() == b.len(),
        forall|i: int| 0 <= i < a.len() ==> #[trigger] a[i]@ == b[i]@,
{
    assert forall|i: int| 0 <= i < a.len() implies #[trigger] a[i]@ == b[i]@ by {
        lemma_accident_decode_deterministic(a[i], b[i], rows[i], cities, i, i);
    }
}

/// Ingestion determinism (supplementary): decoding the same rows twice with
/// the same identity index gives collections of equal length whose records
/// agree pairwise on every field, parent references included; only each
/// record's own generated surrogate identifier may differ.
pub proof fn lemma_persons_decode_deterministic(
    rows: Seq<Seq<Seq<char>>>,
    index: Map<NaturalKey, u128>,
    a: Seq<RawInvolvedPerson>,
    b: Seq<RawInvolvedPerson>,
)
    requires
        persons_decode_ok(rows, index, a),
        persons_decode_ok(rows, index, b),
    ensures
        a.len() == b.len(),
        forall|i: int| 0 <= i < a.len() ==> #[trigger] a[i]@ == b[i]@,
        forall|i: int| 0 <= i < a.len() ==> #[trigger] a[i].accident_id == b[i].accident_id,
{
    assert forall|i: int|
        0 <= i < a.len() implies #[trigger] a[i]@ == b[i]@ && a[i].accident_id
        == b[i].accident_id by {
        lemma_person_decode_deterministic(a[i], b[i], rows[i], index, i, i);
    }
}

} // verus!
