//! Values of database rows and their conversion into Rust values, as the
//! `rusqlite` crate converts them (`Row::get`).

use crate::text::{chars_of, decimal};
use rusqlite::types::Type as T;
use rusqlite::Error as E;
use vstd::prelude::*;
use vstd::utf8::{decode_utf8, valid_utf8};

verus! {

/// The storage class of a value.
#[derive(PartialEq, Eq, Structural, Clone, Copy, Debug)]
pub enum SqlType {
    Null,
    Integer,
    Real,
    Text,
    Blob,
}

/// A value of one column of a result row. A real number is kept without its
/// value: nothing here reads one.
pub enum SqlValue {
    Null,
    Integer(i64),
    Real,
    Text(Vec<u8>),
    Blob(Vec<u8>),
}

pub open spec fn type_of(v: SqlValue) -> SqlType {
    match v {
        SqlValue::Null => SqlType::Null,
        SqlValue::Integer(_) => SqlType::Integer,
        SqlValue::Real => SqlType::Real,
        SqlValue::Text(_) => SqlType::Text,
        SqlValue::Blob(_) => SqlType::Blob,
    }
}

/// Bytes that are no valid UTF-8.
pub struct InvalidUtf8 {
    bytes: Vec<u8>,
}

impl InvalidUtf8 {
    #[verifier::type_invariant]
    spec fn invalid(self) -> bool {
        !valid_utf8(self.bytes@)
    }

    /// The bytes, if they are no valid UTF-8.
    pub fn new(bytes: Vec<u8>) -> (r: Option<InvalidUtf8>)
        ensures
            r is Some <==> !valid_utf8(bytes@),
            r matches Some(b) ==> b@ == bytes@,
    {
        if utf8_string(&bytes).is_some() {
            None
        } else {
            Some(InvalidUtf8 { bytes })
        }
    }

    /// The bytes.
    pub fn bytes(&self) -> (r: &Vec<u8>)
        ensures
            r@ == self@,
            !valid_utf8(r@),
    {
        proof {
            use_type_invariant(self);
        }
        &self.bytes
    }
}

impl View for InvalidUtf8 {
    type V = Seq<u8>;

    closed spec fn view(&self) -> Seq<u8> {
        self.bytes@
    }
}

/// A database failure (the cases of `rusqlite::Error` that matter here;
/// any other is carried by its message).
pub enum SqlError {
    QueryReturnedNoRows,
    InvalidColumnIndex(usize),
    InvalidColumnName(String),
    InvalidColumnType(usize, String, SqlType),
    IntegralValueOutOfRange(usize, i64),
    Utf8Error(usize, InvalidUtf8),
    Other(String),
}

/// A database failure as a mathematical value.
pub enum SqlFault {
    QueryReturnedNoRows,
    InvalidColumnIndex(usize),
    InvalidColumnName(Seq<char>),
    InvalidColumnType(usize, Seq<char>, SqlType),
    IntegralValueOutOfRange(usize, i64),
    Utf8Error(usize, Seq<u8>),
    Other(Seq<char>),
}

impl View for SqlError {
    type V = SqlFault;

    open spec fn view(&self) -> SqlFault {
        match self {
            SqlError::QueryReturnedNoRows => SqlFault::QueryReturnedNoRows,
            SqlError::InvalidColumnIndex(i) => SqlFault::InvalidColumnIndex(*i),
            SqlError::InvalidColumnName(n) => SqlFault::InvalidColumnName(n@),
            SqlError::InvalidColumnType(i, n, t) => SqlFault::InvalidColumnType(*i, n@, *t),
            SqlError::IntegralValueOutOfRange(i, v) => SqlFault::IntegralValueOutOfRange(*i, *v),
            SqlError::Utf8Error(i, b) => SqlFault::Utf8Error(*i, b@),
            SqlError::Other(m) => SqlFault::Other(m@),
        }
    }
}

/// What `rusqlite::Error`'s `Display` writes for a failure.
pub uninterp spec fn sql_error_message(f: SqlFault) -> Seq<char>;

/// The message of a database failure: the `Display` text of the
/// `rusqlite::Error` it stands for (a carried message as it is). The
/// contract claims the named text, that a carried message is returned
/// unchanged, and the texts that rusqlite's `Display` writes for a query
/// without rows and for a bad column index or name. The texts of the other
/// failures are left to the name.
#[verifier::external_body]
pub fn sql_error_text(e: &SqlError) -> (m: String)
    ensures
        m@ == sql_error_message(e@),
        e@ matches SqlFault::Other(t) ==> m@ == t,
        e@ matches SqlFault::QueryReturnedNoRows ==> m@ == "Query returned no rows"@,
        e@ matches SqlFault::InvalidColumnIndex(i) ==> m@ == "Invalid column index: "@ + decimal(i as nat),
        e@ matches SqlFault::InvalidColumnName(n) ==> m@ == "Invalid column name: "@ + n,
{
    let err = match e {
        SqlError::QueryReturnedNoRows => E::QueryReturnedNoRows,
        SqlError::InvalidColumnIndex(i) => E::InvalidColumnIndex(*i),
        SqlError::InvalidColumnName(n) => E::InvalidColumnName(n.clone()),
        SqlError::InvalidColumnType(i, n, t) => E::InvalidColumnType(*i, n.clone(), match t {
            SqlType::Null => T::Null, SqlType::Integer => T::Integer, SqlType::Real => T::Real,
            SqlType::Text => T::Text, SqlType::Blob => T::Blob }),
        SqlError::IntegralValueOutOfRange(i, v) => E::IntegralValueOutOfRange(*i, *v),
        SqlError::Utf8Error(i, b) => E::Utf8Error(*i, std::str::from_utf8(&b.bytes).unwrap_err()),
        SqlError::Other(m) => return m.clone(),
    };
    err.to_string()
}

/// The rows that a query gave, with the names of its columns.
pub struct QueryResult {
    pub columns: Vec<String>,
    pub rows: Vec<Vec<SqlValue>>,
}

impl QueryResult {
    /// Every row has one value per column.
    pub open spec fn well_formed(&self) -> bool {
        forall|i: int| 0 <= i < self.rows@.len() ==> #[trigger] self.rows@[i]@.len()
            == self.columns@.len()
    }
}

/// `String::from_utf8`: the text that `bytes` encode, if they are UTF-8.
/// The contract claims that it succeeds exactly on valid UTF-8 and then
/// decodes it (stated over vstd's UTF-8 specification).
#[verifier::external_body]
pub fn utf8_string(bytes: &Vec<u8>) -> (r: Option<String>)
    ensures
        r is Some <==> valid_utf8(bytes@),
        r matches Some(s) ==> s@ == decode_utf8(bytes@),
{
    String::from_utf8(bytes.clone()).ok()
}

fn copy_bytes(b: &Vec<u8>) -> (r: Vec<u8>)
    ensures
        r@ == b@,
{
    let mut r: Vec<u8> = Vec::new();
    for i in 0..b.len()
        invariant
            r@ == b@.take(i as int),
    {
        r.push(b[i]);
        assert(b@.take(i + 1) == b@.take(i as int).push(b@[i as int]));
    }
    assert(b@.take(b@.len() as int) == b@);
    r
}

// ---------------------------------------------------------------------------
// Reading one column
// ---------------------------------------------------------------------------

/// The value at a column index: an index past the last column is an error.
pub open spec fn column_value(columns: Seq<String>, row: Vec<SqlValue>, idx: int) -> Result<
    SqlValue,
    SqlFault,
> {
    if 0 <= idx < columns.len() {
        Ok(row@[idx])
    } else {
        Err(SqlFault::InvalidColumnIndex(idx as usize))
    }
}

pub open spec fn wrong_type(columns: Seq<String>, row: Vec<SqlValue>, idx: int) -> SqlFault {
    SqlFault::InvalidColumnType(idx as usize, columns[idx]@, type_of(row@[idx]))
}

/// A column read as `i64`: only an integer converts.
pub open spec fn read_i64(columns: Seq<String>, row: Vec<SqlValue>, idx: int) -> Result<
    i64,
    SqlFault,
> {
    match column_value(columns, row, idx) {
        Err(e) => Err(e),
        Ok(SqlValue::Integer(i)) => Ok(i),
        Ok(_) => Err(wrong_type(columns, row, idx)),
    }
}

/// A column read as `u16`: an integer in range.
pub open spec fn read_u16(columns: Seq<String>, row: Vec<SqlValue>, idx: int) -> Result<
    u16,
    SqlFault,
> {
    match read_i64(columns, row, idx) {
        Err(e) => Err(e),
        Ok(i) => if 0 <= i <= u16::MAX {
            Ok(i as u16)
        } else {
            Err(SqlFault::IntegralValueOutOfRange(idx as usize, i))
        },
    }
}

/// A column read as `i8`: an integer in range.
pub open spec fn read_i8(columns: Seq<String>, row: Vec<SqlValue>, idx: int) -> Result<
    i8,
    SqlFault,
> {
    match read_i64(columns, row, idx) {
        Err(e) => Err(e),
        Ok(i) => if i8::MIN <= i <= i8::MAX {
            Ok(i as i8)
        } else {
            Err(SqlFault::IntegralValueOutOfRange(idx as usize, i))
        },
    }
}

/// A column read as text: only valid UTF-8 text converts.
pub open spec fn read_text(columns: Seq<String>, row: Vec<SqlValue>, idx: int) -> Result<
    Seq<char>,
    SqlFault,
> {
    match column_value(columns, row, idx) {
        Err(e) => Err(e),
        Ok(SqlValue::Text(b)) => if valid_utf8(b@) {
            Ok(decode_utf8(b@))
        } else {
            Err(SqlFault::Utf8Error(idx as usize, b@))
        },
        Ok(_) => Err(wrong_type(columns, row, idx)),
    }
}

/// A column read as optional text: `NULL` is none.
pub open spec fn read_opt_text(columns: Seq<String>, row: Vec<SqlValue>, idx: int) -> Result<
    Option<Seq<char>>,
    SqlFault,
> {
    match column_value(columns, row, idx) {
        Err(e) => Err(e),
        Ok(SqlValue::Null) => Ok(None),
        Ok(_) => match read_text(columns, row, idx) {
            Err(e) => Err(e),
            Ok(t) => Ok(Some(t)),
        },
    }
}

/// A column read as an optional `u16`: `NULL` is none.
pub open spec fn read_opt_u16(columns: Seq<String>, row: Vec<SqlValue>, idx: int) -> Result<
    Option<u16>,
    SqlFault,
> {
    match column_value(columns, row, idx) {
        Err(e) => Err(e),
        Ok(SqlValue::Null) => Ok(None),
        Ok(_) => match read_u16(columns, row, idx) {
            Err(e) => Err(e),
            Ok(n) => Ok(Some(n)),
        },
    }
}

pub open spec fn text_result(r: Result<String, SqlError>) -> Result<Seq<char>, SqlFault> {
    match r {
        Ok(s) => Ok(s@),
        Err(e) => Err(e@),
    }
}

pub open spec fn opt_text_result(r: Result<Option<String>, SqlError>) -> Result<
    Option<Seq<char>>,
    SqlFault,
> {
    match r {
        Ok(Some(s)) => Ok(Some(s@)),
        Ok(None) => Ok(None),
        Err(e) => Err(e@),
    }
}

pub open spec fn value_result<T>(r: Result<T, SqlError>) -> Result<T, SqlFault> {
    match r {
        Ok(v) => Ok(v),
        Err(e) => Err(e@),
    }
}

fn type_error(columns: &Vec<String>, row: &Vec<SqlValue>, idx: usize) -> (e: SqlError)
    requires
        idx < columns@.len() == row@.len(),
    ensures
        e@ == wrong_type(columns@, *row, idx as int),
{
    let t = match &row[idx] {
        SqlValue::Null => SqlType::Null,
        SqlValue::Integer(_) => SqlType::Integer,
        SqlValue::Real => SqlType::Real,
        SqlValue::Text(_) => SqlType::Text,
        SqlValue::Blob(_) => SqlType::Blob,
    };
    SqlError::InvalidColumnType(idx, columns[idx].clone(), t)
}

/// `row.get::<_, i64>(idx)`.
pub fn get_i64(columns: &Vec<String>, row: &Vec<SqlValue>, idx: usize) -> (r: Result<
    i64,
    SqlError,
>)
    requires
        row@.len() == columns@.len(),
    ensures
        value_result(r) == read_i64(columns@, *row, idx as int),
{
    if idx >= columns.len() {
        return Err(SqlError::InvalidColumnIndex(idx));
    }
    match &row[idx] {
        SqlValue::Integer(i) => Ok(*i),
        _ => Err(type_error(columns, row, idx)),
    }
}

/// `row.get::<_, u16>(idx)`.
pub fn get_u16(columns: &Vec<String>, row: &Vec<SqlValue>, idx: usize) -> (r: Result<
    u16,
    SqlError,
>)
    requires
        row@.len() == columns@.len(),
    ensures
        value_result(r) == read_u16(columns@, *row, idx as int),
{
    match get_i64(columns, row, idx) {
        Err(e) => Err(e),
        Ok(i) => if 0 <= i && i <= 65535 {
            Ok(i as u16)
        } else {
            Err(SqlError::IntegralValueOutOfRange(idx, i))
        },
    }
}

/// `row.get::<_, i8>(idx)`.
pub fn get_i8(columns: &Vec<String>, row: &Vec<SqlValue>, idx: usize) -> (r: Result<
    i8,
    SqlError,
>)
    requires
        row@.len() == columns@.len(),
    ensures
        value_result(r) == read_i8(columns@, *row, idx as int),
{
    match get_i64(columns, row, idx) {
        Err(e) => Err(e),
        Ok(i) => if -128 <= i && i <= 127 {
            Ok(i as i8)
        } else {
            Err(SqlError::IntegralValueOutOfRange(idx, i))
        },
    }
}

/// `row.get::<_, String>(idx)`.
pub fn get_text(columns: &Vec<String>, row: &Vec<SqlValue>, idx: usize) -> (r: Result<
    String,
    SqlError,
>)
    requires
        row@.len() == columns@.len(),
    ensures
        text_result(r) == read_text(columns@, *row, idx as int),
{
    if idx >= columns.len() {
        return Err(SqlError::InvalidColumnIndex(idx));
    }
    match &row[idx] {
        SqlValue::Text(b) => match utf8_string(b) {
            Some(s) => Ok(s),
            None => Err(SqlError::Utf8Error(idx, InvalidUtf8 { bytes: copy_bytes(b) })),
        },
        _ => Err(type_error(columns, row, idx)),
    }
}

/// `row.get::<_, Option<String>>(idx)`.
pub fn get_opt_text(columns: &Vec<String>, row: &Vec<SqlValue>, idx: usize) -> (r: Result<
    Option<String>,
    SqlError,
>)
    requires
        row@.len() == columns@.len(),
    ensures
        opt_text_result(r) == read_opt_text(columns@, *row, idx as int),
{
    if idx >= columns.len() {
        return Err(SqlError::InvalidColumnIndex(idx));
    }
    match &row[idx] {
        SqlValue::Null => Ok(None),
        _ => match get_text(columns, row, idx) {
            Ok(s) => Ok(Some(s)),
            Err(e) => Err(e),
        },
    }
}

/// `row.get::<_, Option<u16>>(idx)`.
pub fn get_opt_u16(columns: &Vec<String>, row: &Vec<SqlValue>, idx: usize) -> (r: Result<
    Option<u16>,
    SqlError,
>)
    requires
        row@.len() == columns@.len(),
    ensures
        value_result(r) == read_opt_u16(columns@, *row, idx as int),
{
    if idx >= columns.len() {
        return Err(SqlError::InvalidColumnIndex(idx));
    }
    match &row[idx] {
        SqlValue::Null => Ok(None),
        _ => match get_u16(columns, row, idx) {
            Ok(n) => Ok(Some(n)),
            Err(e) => Err(e),
        },
    }
}

// ---------------------------------------------------------------------------
// Columns by name
// ---------------------------------------------------------------------------

/// Two characters that are equal once ASCII letters are lowered.
pub open spec fn same_ignoring_ascii_case(a: char, b: char) -> bool {
    a == b || ('A' <= a && a <= 'Z' && b as int == a as int + 32) || ('A' <= b && b <= 'Z'
        && a as int == b as int + 32)
}

/// `eq_ignore_ascii_case`: equal texts up to the case of ASCII letters.
pub open spec fn eq_ignoring_ascii_case(a: Seq<char>, b: Seq<char>) -> bool {
    a.len() == b.len() && forall|i: int|
        0 <= i < a.len() ==> same_ignoring_ascii_case(#[trigger] a[i], b[i])
}

/// The index of the first column whose name matches `name` up to ASCII case.
pub open spec fn is_column_index(columns: Seq<String>, name: Seq<char>, i: int) -> bool {
    &&& 0 <= i < columns.len()
    &&& eq_ignoring_ascii_case(name, columns[i]@)
    &&& forall|j: int| 0 <= j < i ==> !eq_ignoring_ascii_case(name, #[trigger] columns[j]@)
}

pub open spec fn has_column(columns: Seq<String>, name: Seq<char>) -> bool {
    exists|i: int| 0 <= i < columns.len() && eq_ignoring_ascii_case(name, #[trigger] columns[i]@)
}

pub open spec fn column_position(columns: Seq<String>, name: Seq<char>) -> int {
    choose|i: int| is_column_index(columns, name, i)
}

fn chars_same_ignoring_ascii_case(a: char, b: char) -> (r: bool)
    ensures
        r == same_ignoring_ascii_case(a, b),
{
    a == b || ('A' <= a && a <= 'Z' && (b as u32) == (a as u32) + 32) || ('A' <= b && b <= 'Z'
        && (a as u32) == (b as u32) + 32)
}

fn text_eq_ignoring_ascii_case(a: &str, b: &str) -> (r: bool)
    ensures
        r == eq_ignoring_ascii_case(a@, b@),
{
    let x = chars_of(a);
    let y = chars_of(b);
    if x.len() != y.len() {
        return false;
    }
    let n = x.len();
    for i in 0..n
        invariant
            n == x@.len() == y@.len(),
            x@ == a@,
            y@ == b@,
            forall|j: int| 0 <= j < i ==> same_ignoring_ascii_case(#[trigger] x@[j], y@[j]),
    {
        if !chars_same_ignoring_ascii_case(x[i], y[i]) {
            return false;
        }
    }
    true
}

/// The index of the column called `name` (ASCII case ignored), as
/// `Statement::column_index` finds it.
pub fn column_index(columns: &Vec<String>, name: &str) -> (r: Result<usize, SqlError>)
    ensures
        match r {
            Ok(i) => is_column_index(columns@, name@, i as int) && column_position(columns@, name@)
                == i,
            Err(e) => !has_column(columns@, name@) && e@ == SqlFault::InvalidColumnName(name@),
        },
{
    let n = columns.len();
    for i in 0..n
        invariant
            n == columns@.len(),
            forall|j: int| 0 <= j < i ==> !eq_ignoring_ascii_case(name@, #[trigger] columns@[j]@),
    {
        if text_eq_ignoring_ascii_case(name, columns[i].as_str()) {
            proof {
                let k = column_position(columns@, name@);
                assert(is_column_index(columns@, name@, i as int));
                assert(is_column_index(columns@, name@, k));
                if k < i {
                    assert(!eq_ignoring_ascii_case(name@, columns@[k]@));
                } else if k > i {
                    assert(!eq_ignoring_ascii_case(name@, columns@[i as int]@));
                }
            }
            return Ok(i);
        }
    }
    let mut s = String::new();
    s.append(name);
    Err(SqlError::InvalidColumnName(s))
}

} // verus!
