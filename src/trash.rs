use vstd::prelude::*;

verus! {

/// A row of the app store's app table, as handed out for trashing.
#[derive(Clone, Debug, PartialEq, Eq)]
pub struct AppTable {
    pub id: String,
    pub workspace_id: String,
    pub name: String,
    pub desc: String,
    pub modified_time: i64,
    pub create_time: i64,
}

/// The kind of content a trash entry came from.
#[derive(Clone, Copy, Debug, PartialEq, Eq, Structural)]
pub enum TrashType {
    View,
    App,
}

/// A record of soft-deleted content, enough to restore or purge it later.
#[derive(Clone, Debug, PartialEq, Eq)]
pub struct Trash {
    pub id: String,
    pub name: String,
    pub modified_time: i64,
    pub create_time: i64,
    pub ty: TrashType,
}

/// The trash entry that stands for an app table row.
pub open spec fn trash_of(table: AppTable) -> Trash {
    Trash {
        id: table.id,
        name: table.name,
        modified_time: table.modified_time,
        create_time: table.create_time,
        ty: TrashType::App,
    }
}

/// The trash entries for a sequence of rows, one per row, in order.
pub open spec fn trash_of_all(tables: Seq<AppTable>) -> Seq<Trash> {
    tables.map_values(|t: AppTable| trash_of(t))
}

impl From<AppTable> for Trash {
    fn from(table: AppTable) -> (r: Trash)
        ensures
            r == trash_of(table),
    {
        Trash {
            id: table.id,
            name: table.name,
            modified_time: table.modified_time,
            create_time: table.create_time,
            ty: TrashType::App,
        }
    }
}

impl vstd::std_specs::convert::FromSpecImpl<AppTable> for Trash {
    open spec fn obeys_from_spec() -> bool {
        true
    }

    open spec fn from_spec(table: AppTable) -> Trash {
        trash_of(table)
    }
}

/// Turns each row into its trash entry, keeping the order.
pub fn trash_from_tables(tables: Vec<AppTable>) -> (r: Vec<Trash>)
    ensures
        r@ == trash_of_all(tables@),
{
    let ghost all = tables@;
    let mut rest = tables;
    let mut out: Vec<Trash> = Vec::new();
    while rest.len() > 0
        invariant
            out@.len() + rest@.len() == all.len(),
            rest@ == all.subrange(out@.len() as int, all.len() as int),
            forall|j: int| 0 <= j < out@.len() ==> out@[j] == trash_of(#[trigger] all[j]),
        decreases rest@.len(),
    {
        let table = rest.remove(0);
        out.push(Trash::from(table));
    }
    assert(out@ =~= trash_of_all(all));
    out
}

} // verus!
