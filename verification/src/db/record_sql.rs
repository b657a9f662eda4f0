//! The statements that the record derives of the schema run: which columns
//! a record writes, in which order, and the SQL text built from them.
use vstd::prelude::*;
use crate::db::schema::MAX_BIND_COUNT;
use vstd::multiset::Multiset;
use crate::text::{join, join_spec, str_eq, string_views};
use convert_case::{Case, Casing};

verus! {

/// What converting `name` to snake case gives.
pub uninterp spec fn snake_case(name: Seq<char>) -> Seq<char>;

/// Converts a name to snake case.
///
/// Trusted: `convert_case::Casing::to_case` with `Case::Snake`. The result is
/// named by `snake_case`.
#[verifier::external_body]
pub(crate) fn to_snake_case(name: &str) -> (r: String)
    ensures
        r@ == snake_case(name@),
{
    name.to_case(Case::Snake)
}

/// The attributes of a record type: the names of its view and table.
#[derive(Default, Debug, Clone)]
pub struct PrehniteDbAttributes {
    pub view_name: Option<String>,
    pub table_name: Option<String>,
}

/// The table of a record type named `struct_name`: the given table name, or
/// the snake case of the type's name.
pub open spec fn table_name_spec(table: Option<String>, struct_name: Seq<char>) -> Seq<char> {
    match table {
        Some(t) => t@,
        None => snake_case(struct_name),
    }
}

impl PrehniteDbAttributes {
    /// The table that records of the type `struct_name` are written to.
    pub fn table_name(&self, struct_name: &str) -> (r: String)
        ensures
            r@ == table_name_spec(self.table_name, struct_name@),
    {
        match &self.table_name {
            Some(t) => t.clone(),
            None => to_snake_case(struct_name),
        }
    }

    /// The view that records of the type `struct_name` are read from: the
    /// given view name, or the table.
    pub fn view_name(&self, struct_name: &str) -> (r: String)
        ensures
            r@ == match self.view_name {
                Some(v) => v@,
                None => table_name_spec(self.table_name, struct_name@),
            },
    {
        match &self.view_name {
            Some(v) => v.clone(),
            None => self.table_name(struct_name),
        }
    }
}

/// The attributes of a field of a record.
#[derive(Default, Debug)]
pub struct PrehniteDbFieldAttributes {
    pub skip: bool,
    pub skip_update: bool,
    pub skip_create: bool,
    pub use_id: bool,
    pub use_string_from: bool,
    pub name: Option<String>,
}

impl PrehniteDbFieldAttributes {
    /// Whether updates leave the field out.
    pub fn skip_update(&self) -> (r: bool)
        ensures
            r == (self.skip || self.skip_update),
    {
        self.skip || self.skip_update
    }

    /// Whether insertions leave the field out.
    pub fn skip_create(&self) -> (r: bool)
        ensures
            r == (self.skip || self.skip_create),
    {
        self.skip || self.skip_create
    }

    /// Whether the field is a record written by its id.
    pub fn use_id(&self) -> (r: bool)
        ensures
            r == self.use_id,
    {
        self.use_id
    }

    /// Whether the field is written as the string it converts to.
    pub fn use_string_from(&self) -> (r: bool)
        ensures
            r == self.use_string_from,
    {
        self.use_string_from
    }
}

/// A field of a record: whether its type is an `Option`, its identifier, its
/// attributes and the column it is written to.
#[derive(Debug)]
pub struct DbField {
    pub is_option: bool,
    pub ident: String,
    pub attr: PrehniteDbFieldAttributes,
    pub field_name: String,
}

impl Clone for PrehniteDbFieldAttributes {
    fn clone(&self) -> (r: Self)
        ensures
            r == *self,
    {
        PrehniteDbFieldAttributes {
            skip: self.skip,
            skip_update: self.skip_update,
            skip_create: self.skip_create,
            use_id: self.use_id,
            use_string_from: self.use_string_from,
            name: crate::db::schema::clone_opt_string(&self.name),
        }
    }
}

impl Clone for DbField {
    fn clone(&self) -> (r: Self)
        ensures
            r == *self,
    {
        DbField {
            is_option: self.is_option,
            ident: self.ident.clone(),
            attr: self.attr.clone(),
            field_name: self.field_name.clone(),
        }
    }
}

impl DbField {
    /// The field written to the column its attributes name, if they name
    /// one.
    pub fn override_field_name(self) -> (r: Self)
        ensures
            r.is_option == self.is_option,
            r.ident == self.ident,
            r.attr == self.attr,
            r.field_name == match self.attr.name {
                Some(n) => n,
                None => self.field_name,
            },
    {
        let mut r = self;
        match &r.attr.name {
            Some(n) => {
                r.field_name = n.clone();
            },
            None => {},
        }
        r
    }
}

/// The fields written besides the id: every field whose column is not `id`,
/// moved to the column its attributes name.
pub open spec fn parsed_fields(fs: Seq<DbField>) -> Seq<DbField>
    decreases fs.len(),
{
    if fs.len() == 0 {
        Seq::empty()
    } else {
        let prev = parsed_fields(fs.drop_last());
        let f = fs.last();
        if f.field_name@ == "id"@ {
            prev
        } else {
            prev.push(DbField {
                field_name: match f.attr.name {
                    Some(n) => n,
                    None => f.field_name,
                },
                ..f
            })
        }
    }
}

/// Leaves out the id field and moves each field to the column its
/// attributes name.
pub fn parse_fields(fields: Vec<DbField>) -> (r: Vec<DbField>)
    ensures
        r@ == parsed_fields(fields@),
{
    let mut r: Vec<DbField> = Vec::new();
    let mut i: usize = 0;
    while i < fields.len()
        invariant
            0 <= i <= fields@.len(),
            r@ == parsed_fields(fields@.take(i as int)),
        decreases fields@.len() - i,
    {
        proof {
            assert(fields@.take(i + 1).drop_last() =~= fields@.take(i as int));
        }
        if !str_eq(fields[i].field_name.as_str(), "id") {
            r.push(fields[i].clone().override_field_name());
        }
        i = i + 1;
    }
    proof {
        assert(fields@.take(fields@.len() as int) =~= fields@);
    }
    r
}

/// The groups of columns, in the order statements write them.
#[derive(Debug, Clone, Copy, PartialEq, Eq, Structural)]
pub enum ColumnGroup {
    /// Fields written as they are.
    Normal,
    /// Records written by their id.
    IdRef,
    /// Optional records written by their id.
    OptIdRef,
    /// Fields written as the string they convert to.
    StringFrom,
    /// Optional fields written as the string they convert to.
    OptStringFrom,
}

/// Whether the field belongs to the group.
pub open spec fn in_group(f: DbField, g: ColumnGroup) -> bool {
    match g {
        ColumnGroup::Normal => !f.attr.use_id && !f.attr.use_string_from,
        ColumnGroup::IdRef => !f.is_option && f.attr.use_id,
        ColumnGroup::OptIdRef => f.is_option && f.attr.use_id,
        ColumnGroup::StringFrom => !f.is_option && !f.attr.use_id && f.attr.use_string_from,
        ColumnGroup::OptStringFrom => f.is_option && !f.attr.use_id && f.attr.use_string_from,
    }
}

/// The columns of the fields of a group, in order.
pub open spec fn group_columns(fs: Seq<DbField>, g: ColumnGroup) -> Seq<Seq<char>>
    decreases fs.len(),
{
    if fs.len() == 0 {
        Seq::empty()
    } else if in_group(fs.last(), g) {
        group_columns(fs.drop_last(), g).push(fs.last().field_name@)
    } else {
        group_columns(fs.drop_last(), g)
    }
}

/// The columns of the fields in the order statements write them: the
/// normal fields, then the records by id, the optional records by id, the
/// converted strings and the optional converted strings.
pub open spec fn column_order_spec(fs: Seq<DbField>) -> Seq<Seq<char>> {
    group_columns(fs, ColumnGroup::Normal) + group_columns(fs, ColumnGroup::IdRef)
        + group_columns(fs, ColumnGroup::OptIdRef) + group_columns(fs, ColumnGroup::StringFrom)
        + group_columns(fs, ColumnGroup::OptStringFrom)
}

/// Whether a field belongs to a group.
fn field_in_group(f: &DbField, g: ColumnGroup) -> (r: bool)
    ensures
        r == in_group(*f, g),
{
    match g {
        ColumnGroup::Normal => !f.attr.use_id() && !f.attr.use_string_from(),
        ColumnGroup::IdRef => !f.is_option && f.attr.use_id(),
        ColumnGroup::OptIdRef => f.is_option && f.attr.use_id(),
        ColumnGroup::StringFrom => !f.is_option && !f.attr.use_id() && f.attr.use_string_from(),
        ColumnGroup::OptStringFrom => f.is_option && !f.attr.use_id() && f.attr.use_string_from(),
    }
}

/// Appends the columns of the fields of a group to `out`.
fn push_group_columns(fields: &Vec<DbField>, g: ColumnGroup, out: &mut Vec<String>)
    ensures
        string_views(final(out)@) == string_views(old(out)@) + group_columns(fields@, g),
{
    let ghost start = string_views(out@);
    let mut i: usize = 0;
    while i < fields.len()
        invariant
            0 <= i <= fields@.len(),
            string_views(out@) == start + group_columns(fields@.take(i as int), g),
        decreases fields@.len() - i,
    {
        proof {
            assert(fields@.take(i + 1).drop_last() =~= fields@.take(i as int));
        }
        if field_in_group(&fields[i], g) {
            let ghost before = string_views(out@);
            out.push(fields[i].field_name.clone());
            proof {
                assert(string_views(out@) =~= before.push(fields@[i as int].field_name@));
                assert(start + group_columns(fields@.take(i + 1), g)
                    =~= (start + group_columns(fields@.take(i as int), g)).push(fields@[i as int].field_name@));
            }
        }
        i = i + 1;
    }
    proof {
        assert(fields@.take(fields@.len() as int) =~= fields@);
    }
}

/// The columns of the fields in the order statements write them.
pub fn column_order(fields: &Vec<DbField>) -> (r: Vec<String>)
    ensures
        string_views(r@) == column_order_spec(fields@),
{
    let mut out: Vec<String> = Vec::new();
    proof {
        assert(string_views(out@) =~= Seq::<Seq<char>>::empty());
    }
    push_group_columns(fields, ColumnGroup::Normal, &mut out);
    push_group_columns(fields, ColumnGroup::IdRef, &mut out);
    push_group_columns(fields, ColumnGroup::OptIdRef, &mut out);
    push_group_columns(fields, ColumnGroup::StringFrom, &mut out);
    push_group_columns(fields, ColumnGroup::OptStringFrom, &mut out);
    proof {
        assert(string_views(out@) =~= column_order_spec(fields@));
    }
    out
}

/// The columns of the fields, in order.
pub open spec fn field_columns(fs: Seq<DbField>) -> Seq<Seq<char>> {
    fs.map_values(|f: DbField| f.field_name@)
}

/// The columns of the groups, counted together.
spec fn groups_multiset(fs: Seq<DbField>) -> Multiset<Seq<char>> {
    group_columns(fs, ColumnGroup::Normal).to_multiset()
        .add(group_columns(fs, ColumnGroup::IdRef).to_multiset())
        .add(group_columns(fs, ColumnGroup::OptIdRef).to_multiset())
        .add(group_columns(fs, ColumnGroup::StringFrom).to_multiset())
        .add(group_columns(fs, ColumnGroup::OptStringFrom).to_multiset())
}

proof fn lemma_groups_multiset(fs: Seq<DbField>)
    ensures
        groups_multiset(fs) == field_columns(fs).to_multiset(),
    decreases fs.len(),
{
    broadcast use vstd::seq_lib::group_to_multiset_ensures;
    broadcast use vstd::multiset::group_multiset_axioms;

    if fs.len() == 0 {
        assert(field_columns(fs) =~= Seq::<Seq<char>>::empty());
        assert(groups_multiset(fs) =~= Multiset::<Seq<char>>::empty());
    } else {
        let prev = fs.drop_last();
        lemma_groups_multiset(prev);
        assert(field_columns(fs) =~= field_columns(prev).push(fs.last().field_name@));
        assert(groups_multiset(fs) =~= groups_multiset(prev).insert(fs.last().field_name@));
    }
}

/// The statements write each column of the fields exactly once: the column
/// order is a rearrangement of the columns of the fields.
pub proof fn law_column_order_is_permutation(fs: Seq<DbField>)
    ensures
        column_order_spec(fs).to_multiset() == field_columns(fs).to_multiset(),
{
    broadcast use vstd::seq_lib::lemma_multiset_commutative;

    lemma_groups_multiset(fs);
    let a = group_columns(fs, ColumnGroup::Normal);
    let b = group_columns(fs, ColumnGroup::IdRef);
    let c = group_columns(fs, ColumnGroup::OptIdRef);
    let d = group_columns(fs, ColumnGroup::StringFrom);
    let e = group_columns(fs, ColumnGroup::OptStringFrom);
    assert((a + b).to_multiset() == a.to_multiset().add(b.to_multiset()));
    assert((a + b + c).to_multiset() == (a + b).to_multiset().add(c.to_multiset()));
    assert((a + b + c + d).to_multiset() == (a + b + c).to_multiset().add(d.to_multiset()));
    assert((a + b + c + d + e).to_multiset() == (a + b + c + d).to_multiset().add(e.to_multiset()));
}

/// The fields an insertion writes.
pub open spec fn create_fields_spec(fs: Seq<DbField>) -> Seq<DbField>
    decreases fs.len(),
{
    if fs.len() == 0 {
        Seq::empty()
    } else if fs.last().attr.skip || fs.last().attr.skip_create {
        create_fields_spec(fs.drop_last())
    } else {
        create_fields_spec(fs.drop_last()).push(fs.last())
    }
}

/// The fields an update writes.
pub open spec fn update_fields_spec(fs: Seq<DbField>) -> Seq<DbField>
    decreases fs.len(),
{
    if fs.len() == 0 {
        Seq::empty()
    } else if fs.last().attr.skip || fs.last().attr.skip_update {
        update_fields_spec(fs.drop_last())
    } else {
        update_fields_spec(fs.drop_last()).push(fs.last())
    }
}

/// The fields an insertion writes: those not skipped on creation.
pub fn create_fields(fields: Vec<DbField>) -> (r: Vec<DbField>)
    ensures
        r@ == create_fields_spec(fields@),
{
    let mut r: Vec<DbField> = Vec::new();
    let mut i: usize = 0;
    while i < fields.len()
        invariant
            0 <= i <= fields@.len(),
            r@ == create_fields_spec(fields@.take(i as int)),
        decreases fields@.len() - i,
    {
        proof {
            assert(fields@.take(i + 1).drop_last() =~= fields@.take(i as int));
        }
        if !fields[i].attr.skip_create() {
            r.push(fields[i].clone());
        }
        i = i + 1;
    }
    proof {
        assert(fields@.take(fields@.len() as int) =~= fields@);
    }
    r
}

/// The fields an update writes: those not skipped on update.
pub fn update_fields(fields: Vec<DbField>) -> (r: Vec<DbField>)
    ensures
        r@ == update_fields_spec(fields@),
{
    let mut r: Vec<DbField> = Vec::new();
    let mut i: usize = 0;
    while i < fields.len()
        invariant
            0 <= i <= fields@.len(),
            r@ == update_fields_spec(fields@.take(i as int)),
        decreases fields@.len() - i,
    {
        proof {
            assert(fields@.take(i + 1).drop_last() =~= fields@.take(i as int));
        }
        if !fields[i].attr.skip_update() {
            r.push(fields[i].clone());
        }
        i = i + 1;
    }
    proof {
        assert(fields@.take(fields@.len() as int) =~= fields@);
    }
    r
}

/// `count` copies of `placeholder`.
pub open spec fn copies(placeholder: Seq<char>, count: nat) -> Seq<Seq<char>> {
    Seq::new(count, |i: int| placeholder)
}

/// `count` copies of `placeholder` separated by commas.
pub fn placeholder_helper(placeholder: &str, count: usize) -> (r: String)
    ensures
        r@ == join_spec(copies(placeholder@, count as nat), ","@),
{
    let mut parts: Vec<String> = Vec::new();
    let mut i: usize = 0;
    while i < count
        invariant
            0 <= i <= count,
            string_views(parts@) == copies(placeholder@, i as nat),
        decreases count - i,
    {
        let s = placeholder.to_string();
        let ghost before = string_views(parts@);
        proof {
            vstd::string::to_string_from_display_ensures_for_str(placeholder, s);
        }
        parts.push(s);
        i = i + 1;
        proof {
            assert(string_views(parts@) =~= before.push(placeholder@));
            assert(string_views(parts@) =~= copies(placeholder@, i as nat));
        }
    }
    join(&parts, ",")
}

/// The placeholder of one row of an insertion of `count` columns:
/// `(?,...,?)`.
pub fn row_placeholder(count: usize) -> (r: String)
    ensures
        r@ == seq!['('] + join_spec(copies("?"@, count as nat), ","@) + seq![')'],
{
    let mut r = "(".to_string();
    r.append(placeholder_helper("?", count).as_str());
    r.append(")");
    proof {
        reveal_strlit("(");
        reveal_strlit(")");
    }
    r
}

/// The columns an insertion of the fields writes, separated by commas.
pub fn insert_columns(fields: &Vec<DbField>) -> (r: String)
    ensures
        r@ == join_spec(column_order_spec(fields@), ","@),
{
    join(&column_order(fields), ",")
}

/// The `SET` clause of an update of the fields: `column=?` per column,
/// separated by commas.
pub fn update_set_clause(fields: &Vec<DbField>) -> (r: String)
    ensures
        r@ == join_spec(column_order_spec(fields@).map_values(|c: Seq<char>| c + "=?"@), ","@),
{
    let columns = column_order(fields);
    let mut parts: Vec<String> = Vec::new();
    let mut i: usize = 0;
    while i < columns.len()
        invariant
            0 <= i <= columns@.len(),
            string_views(parts@) == string_views(columns@).take(i as int).map_values(|c: Seq<char>| c + "=?"@),
        decreases columns@.len() - i,
    {
        let mut p = columns[i].clone();
        p.append("=?");
        let ghost before = string_views(parts@);
        parts.push(p);
        proof {
            assert(string_views(parts@) =~= before.push(columns@[i as int]@ + "=?"@));
            assert(string_views(columns@).take(i + 1).map_values(|c: Seq<char>| c + "=?"@)
                =~= string_views(columns@).take(i as int).map_values(|c: Seq<char>| c + "=?"@).push(columns@[i as int]@ + "=?"@));
        }
        i = i + 1;
    }
    proof {
        assert(string_views(columns@).take(columns@.len() as int) =~= string_views(columns@));
    }
    join(&parts, ",")
}

/// The number of records of `placeholder_count` columns that one
/// statement writes.
pub open spec fn per_statement(placeholder_count: nat) -> nat {
    MAX_BIND_COUNT as nat / placeholder_count
}

/// The number of records one insertion statement writes, for records of
/// `placeholder_count` columns.
pub fn records_per_statement(placeholder_count: usize) -> (r: usize)
    requires
        placeholder_count > 0,
    ensures
        r == per_statement(placeholder_count as nat),
{
    MAX_BIND_COUNT / placeholder_count
}

/// A statement binds at most `MAX_BIND_COUNT` values, and as many records as
/// fit: one record more would exceed it.
pub proof fn law_records_per_statement(placeholder_count: nat)
    requires
        placeholder_count > 0,
    ensures
        per_statement(placeholder_count) * placeholder_count <= MAX_BIND_COUNT,
        MAX_BIND_COUNT < (per_statement(placeholder_count) + 1) * placeholder_count,
{
    let m = MAX_BIND_COUNT as int;
    let c = placeholder_count as int;
    vstd::arithmetic::div_mod::lemma_fundamental_div_mod(m, c);
    assert(0 <= m % c < c) by {
        vstd::arithmetic::div_mod::lemma_mod_bound(m, c);
    }
    assert((m / c + 1) * c == (m / c) * c + c) by (nonlinear_arith);
    assert((m / c) * c == c * (m / c)) by (nonlinear_arith);
}

/// Whether `r` cuts `0..count` into consecutive ranges of `per` records,
/// the last of them holding the rest (one to `per` records).
pub open spec fn chunked(r: Seq<(usize, usize)>, count: nat, per: nat) -> bool {
    &&& (r.len() == 0 <==> count == 0)
    &&& r.len() > 0 ==> r[0].0 == 0 && r.last().1 == count && 0 < r.last().1 - r.last().0 <= per
    &&& forall|i: int| 0 <= i < r.len() - 1 ==> #[trigger] r[i].1 == r[i + 1].0 && r[i].1 - r[i].0 == per
}

/// The ranges of the records that the statements of an insertion of
/// `count` records write, `per` records a statement, as `slice::chunks`
/// cuts them.
pub fn statement_chunks(count: usize, per: usize) -> (r: Vec<(usize, usize)>)
    requires
        per > 0,
    ensures
        chunked(r@, count as nat, per as nat),
{
    let mut r: Vec<(usize, usize)> = Vec::new();
    let mut start: usize = 0;
    while start < count
        invariant
            per > 0,
            start <= count,
            r@.len() == 0 <==> start == 0,
            r@.len() > 0 ==> r@[0].0 == 0 && r@.last().1 == start && 0 < r@.last().1 - r@.last().0 <= per,
            r@.len() > 0 && start < count ==> r@.last().1 - r@.last().0 == per,
            forall|i: int| 0 <= i < r@.len() - 1 ==> #[trigger] r@[i].1 == r@[i + 1].0 && r@[i].1 - r@[i].0 == per,
        decreases count - start,
    {
        let end = if count - start > per { start + per } else { count };
        let ghost before = r@;
        r.push((start, end));
        proof {
            assert forall|i: int| 0 <= i < r@.len() - 1 implies #[trigger] r@[i].1 == r@[i + 1].0 && r@[i].1 - r@[i].0 == per by {
                if i < before.len() - 1 {
                    assert(r@[i] == before[i] && r@[i + 1] == before[i + 1]);
                } else {
                    assert(r@[i] == before.last());
                }
            }
        }
        start = end;
    }
    r
}

/// The insertion of `rows` records into `table`: the columns, one
/// placeholder per record, `ON CONFLICT DO NOTHING` when asked, and the ids
/// returned.
pub open spec fn insert_sql_spec(table: Seq<char>, columns: Seq<char>, placeholder: Seq<char>, rows: nat, on_conflict_do_nothing: bool) -> Seq<char> {
    "INSERT INTO "@ + table + "("@ + columns + ") VALUES "@ + join_spec(copies(placeholder, rows), ","@) + " "@
        + (if on_conflict_do_nothing {
        "ON CONFLICT DO NOTHING"@
    } else {
        ""@
    }) + " RETURNING id"@
}

/// An insertion statement starts with `INSERT INTO`, the table and its
/// columns, gives one placeholder per record, and ends by returning the ids;
/// asking to do nothing on conflict adds exactly the clause
/// `ON CONFLICT DO NOTHING` before that end and changes nothing else.
pub proof fn law_insert_sql(table: Seq<char>, columns: Seq<char>, placeholder: Seq<char>, rows: nat)
    ensures
        exists|pre: Seq<char>| {
            &&& pre == "INSERT INTO "@ + table + "("@ + columns + ") VALUES "@ + join_spec(copies(placeholder, rows), ","@) + " "@
            &&& #[trigger] insert_sql_spec(table, columns, placeholder, rows, false) == pre + " RETURNING id"@
            &&& insert_sql_spec(table, columns, placeholder, rows, true) == pre + "ON CONFLICT DO NOTHING"@ + " RETURNING id"@
        },
        insert_sql_spec(table, columns, placeholder, rows, true) != insert_sql_spec(table, columns, placeholder, rows, false),
{
    reveal_strlit("");
    reveal_strlit("ON CONFLICT DO NOTHING");
    let pre = "INSERT INTO "@ + table + "("@ + columns + ") VALUES "@ + join_spec(copies(placeholder, rows), ","@) + " "@;
    assert(insert_sql_spec(table, columns, placeholder, rows, false) =~= pre + " RETURNING id"@);
    assert(insert_sql_spec(table, columns, placeholder, rows, true) =~= pre + "ON CONFLICT DO NOTHING"@ + " RETURNING id"@);
    assert(insert_sql_spec(table, columns, placeholder, rows, true).len() != insert_sql_spec(table, columns, placeholder, rows, false).len());
}

/// The statement inserting `rows` records into `table`.
pub fn insert_sql(table: &str, columns: &str, placeholder: &str, rows: usize, on_conflict_do_nothing: bool) -> (r: String)
    ensures
        r@ == insert_sql_spec(table@, columns@, placeholder@, rows as nat, on_conflict_do_nothing),
{
    let mut r = "INSERT INTO ".to_string();
    r.append(table);
    r.append("(");
    r.append(columns);
    r.append(") VALUES ");
    r.append(placeholder_helper(placeholder, rows).as_str());
    r.append(" ");
    if on_conflict_do_nothing {
        r.append("ON CONFLICT DO NOTHING");
    } else {
        r.append("");
    }
    r.append(" RETURNING id");
    r
}

/// The statement reading back `rows` records of `view` by id.
pub fn select_by_ids_sql(view: &str, placeholder: &str, rows: usize) -> (r: String)
    ensures
        r@ == "SELECT * FROM "@ + view@ + " WHERE id IN ("@ + join_spec(copies(placeholder@, rows as nat), ","@) + ")"@,
{
    let mut r = "SELECT * FROM ".to_string();
    r.append(view);
    r.append(" WHERE id IN (");
    r.append(placeholder_helper(placeholder, rows).as_str());
    r.append(")");
    r
}

/// The statement reading every record of `view`.
pub fn select_all_sql(view: &str) -> (r: String)
    ensures
        r@ == "SELECT * FROM "@ + view@,
{
    let mut r = "SELECT * FROM ".to_string();
    r.append(view);
    r
}

/// The statement reading the record of `view` with a given id.
pub fn select_by_id_sql(view: &str) -> (r: String)
    ensures
        r@ == "SELECT * FROM "@ + view@ + " WHERE id = ?"@,
{
    let mut r = select_all_sql(view);
    r.append(" WHERE id = ?");
    r
}

/// The statement updating the record of `table` with a given id.
pub fn update_sql(table: &str, set_clause: &str) -> (r: String)
    ensures
        r@ == "UPDATE "@ + table@ + " SET "@ + set_clause@ + " WHERE id=?"@,
{
    let mut r = "UPDATE ".to_string();
    r.append(table);
    r.append(" SET ");
    r.append(set_clause);
    r.append(" WHERE id=?");
    r
}

/// The statement deleting the record of `table` with a given id.
pub fn delete_sql(table: &str) -> (r: String)
    ensures
        r@ == "DELETE FROM "@ + table@ + " WHERE id=?"@,
{
    let mut r = "DELETE FROM ".to_string();
    r.append(table);
    r.append(" WHERE id=?");
    r
}

} // verus!
