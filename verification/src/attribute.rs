use vstd::prelude::*;

verus! {

/// A column descriptor, as the native result-construction call takes it.
///
/// When a result is synthesized on the client side, each of its columns
/// is described by a name and the column's metadata — owning table,
/// position in that table, wire format, data type, declared length and
/// type modifier. The descriptor is passed by reference into the native
/// call and is not owned by the result beyond it.
#[derive(Clone, Debug)]
pub struct Attribute {
    /// The column's name.
    pub name: String,
    /// Identifier of the table the column belongs to, or the invalid
    /// identifier when it belongs to none.
    pub tableid: crate::Oid,
    /// The column's position within its table.
    pub columnid: i32,
    /// Wire format of the column's values.
    pub format: crate::Format,
    /// Identifier of the column's data type.
    pub typid: crate::Oid,
    /// Declared length of the data type; negative for variable length.
    pub typlen: i32,
    /// The data type's modifier; negative when there is none.
    pub atttypmod: i32,
}

impl Attribute {
    /// Builds a descriptor from the column's name and metadata.
    pub fn new(
        name: String,
        tableid: crate::Oid,
        columnid: i32,
        format: crate::Format,
        typid: crate::Oid,
        typlen: i32,
        atttypmod: i32,
    ) -> (r: Attribute)
        ensures
            r.name == name,
            r.tableid == tableid,
            r.columnid == columnid,
            r.format == format,
            r.typid == typid,
            r.typlen == typlen,
            r.atttypmod == atttypmod,
    {
        Attribute { name, tableid, columnid, format, typid, typlen, atttypmod }
    }
}

} // verus!
