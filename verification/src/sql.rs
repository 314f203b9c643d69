//! Database statements: SQL text and the values bound to its placeholders,
//! in order. The application hands them to the database driver.
use vstd::prelude::*;

verus! {

/// A value bound to a placeholder.
#[derive(Debug, Clone, PartialEq, Eq)]
pub enum SqlParam {
    Text(String),
    OptText(Option<String>),
    Int(i64),
    Bool(bool),
    Chmod([u8; 3]),
}

/// The mathematical value of a `SqlParam`.
pub enum ParamView {
    Text(Seq<char>),
    OptText(Option<Seq<char>>),
    Int(int),
    Bool(bool),
    Chmod(Seq<u8>),
}

impl View for SqlParam {
    type V = ParamView;

    open spec fn view(&self) -> ParamView {
        match self {
            SqlParam::Text(s) => ParamView::Text(s@),
            SqlParam::OptText(o) => ParamView::OptText(o.deep_view()),
            SqlParam::Int(i) => ParamView::Int(*i as int),
            SqlParam::Bool(b) => ParamView::Bool(*b),
            SqlParam::Chmod(c) => ParamView::Chmod(c@),
        }
    }
}

/// SQL text with its parameters.
#[derive(Debug, Clone, PartialEq, Eq)]
pub struct Statement {
    pub sql: String,
    pub params: Vec<SqlParam>,
}

/// The mathematical value of a `Statement`.
#[verifier::ext_equal]
pub struct StatementView {
    pub sql: Seq<char>,
    pub params: Seq<ParamView>,
}

impl View for Statement {
    type V = StatementView;

    open spec fn view(&self) -> StatementView {
        StatementView { sql: self.sql@, params: self.params@.map_values(|p: SqlParam| p@) }
    }
}

/// `p` holds a time read from the clock: milliseconds since the Unix
/// epoch, never before it.
pub open spec fn is_clock_time(p: ParamView) -> bool {
    p matches ParamView::Int(t) && t >= 0
}

/// The views of the statements in `s`.
pub open spec fn views(s: Seq<Statement>) -> Seq<StatementView> {
    s.map_values(|st: Statement| st@)
}

/// A text parameter holding a copy of `s`.
pub fn text(s: &str) -> (p: SqlParam)
    ensures
        p@ == ParamView::Text(s@),
{
    SqlParam::Text(String::from_str(s))
}

/// An optional text parameter holding a copy of `o`.
pub fn opt_text(o: Option<&str>) -> (p: SqlParam)
    ensures
        p@ == ParamView::OptText(o.deep_view()),
{
    match o {
        Some(s) => SqlParam::OptText(Some(String::from_str(s))),
        None => SqlParam::OptText(None),
    }
}

/// An optional text parameter holding a copy of `o`.
pub fn opt_string(o: &Option<String>) -> (p: SqlParam)
    ensures
        p@ == ParamView::OptText(o.deep_view()),
{
    match o {
        Some(s) => SqlParam::OptText(Some(s.clone())),
        None => SqlParam::OptText(None),
    }
}

/// The statement with text `sql` and parameters `params`.
pub fn statement(sql: &str, params: Vec<SqlParam>) -> (st: Statement)
    ensures
        st@ == (StatementView { sql: sql@, params: params@.map_values(|p: SqlParam| p@) }),
{
    Statement { sql: String::from_str(sql), params }
}

/// A statement whose only parameter is the text `id`.
pub fn by_id(sql: &str, id: &str) -> (st: Statement)
    ensures
        st@ == (StatementView { sql: sql@, params: seq![ParamView::Text(id@)] }),
{
    let st = statement(sql, vec![text(id)]);
    assert(st@.params =~= seq![ParamView::Text(id@)]);
    st
}

/// The column names `cols` separated by ", ".
pub open spec fn column_list(cols: Seq<Seq<char>>) -> Seq<char>
    decreases cols.len(),
{
    if cols.len() == 0 {
        Seq::empty()
    } else if cols.len() == 1 {
        cols[0]
    } else {
        column_list(cols.drop_last()) + ", "@ + cols.last()
    }
}

/// `n` in decimal.
pub open spec fn decimal(n: nat) -> Seq<char>
    decreases n,
{
    if n < 10 {
        seq![(48 + n) as char]
    } else {
        decimal(n / 10) + seq![(48 + n % 10) as char]
    }
}

/// The placeholders "$1, $2, ..., $n".
pub open spec fn placeholders(n: nat) -> Seq<char>
    decreases n,
{
    if n == 0 {
        Seq::empty()
    } else if n == 1 {
        "$1"@
    } else {
        placeholders((n - 1) as nat) + ", $"@ + decimal(n)
    }
}

/// The text of an insert into `table` of one row with the columns `cols`,
/// the i-th column taking the i-th placeholder.
pub open spec fn insert_sql(table: Seq<char>, cols: Seq<Seq<char>>) -> Seq<char> {
    "INSERT INTO \""@ + table + "\" ("@ + column_list(cols) + ") VALUES ("@ + placeholders(cols.len()) + ");"@
}

/// An insert with the columns `cols` stores `v` in the column `col`: the
/// parameter that takes the place of that column is `v`.
pub open spec fn binds(st: StatementView, cols: Seq<Seq<char>>, col: Seq<char>, v: ParamView) -> bool {
    &&& st.params.len() == cols.len()
    &&& exists|i: int| 0 <= i < cols.len() && #[trigger] cols[i] == col && st.params[i] == v
}

} // verus!
