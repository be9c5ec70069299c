use vstd::prelude::*;

verus! {

/// Describes one column of a result set.
#[derive(Debug)]
pub struct DataColumn {
    pub name: String,
    pub sql_type: String,
    pub size: Option<u32>,
    pub nullable: bool,
}

/// What a `DataColumn` holds, as mathematics.
pub struct ColumnView {
    pub name: Seq<char>,
    pub sql_type: Seq<char>,
    pub size: Option<u32>,
    pub nullable: bool,
}

impl View for DataColumn {
    type V = ColumnView;

    open spec fn view(&self) -> ColumnView {
        ColumnView {
            name: self.name@,
            sql_type: self.sql_type@,
            size: self.size,
            nullable: self.nullable,
        }
    }
}

impl Clone for DataColumn {
    fn clone(&self) -> (copy: DataColumn)
        ensures
            copy@ == self@,
    {
        DataColumn {
            name: self.name.clone(),
            sql_type: self.sql_type.clone(),
            size: self.size,
            nullable: self.nullable,
        }
    }
}

impl PartialEq for DataColumn {
    fn eq(&self, other: &DataColumn) -> (r: bool) {
        self.name == other.name && self.sql_type == other.sql_type && self.size == other.size
            && self.nullable == other.nullable
    }
}

impl vstd::std_specs::cmp::PartialEqSpecImpl for DataColumn {
    open spec fn obeys_eq_spec() -> bool {
        true
    }

    open spec fn eq_spec(&self, other: &DataColumn) -> bool {
        self@ == other@
    }
}

impl Default for DataColumn {
    fn default() -> (column: DataColumn)
        ensures
            column@ == (ColumnView {
                name: Seq::<char>::empty(),
                sql_type: Seq::<char>::empty(),
                size: None,
                nullable: false,
            }),
    {
        DataColumn { name: String::new(), sql_type: String::new(), size: None, nullable: false }
    }
}

} // verus!
