//! Rendering of record definitions as source text.

use vstd::prelude::*;
use vstd::string::StringExecFns;

use crate::types::{records_view, render_type_spec, view_field_seq, RecordDef, RecordSpec, TypeSpec};

verus! {

/// The annotation line above a record: serialization support adds the codec
/// capabilities to the derived ones.
pub open spec fn derive_line_spec(serde: bool) -> Seq<char> {
    if serde {
        "#[derive(Debug, Clone, Serialize, Deserialize)]\n"@
    } else {
        "#[derive(Debug, Clone)]\n"@
    }
}

pub open spec fn render_fields_spec(fs: Seq<(Seq<char>, TypeSpec)>) -> Seq<char>
    decreases fs.len(),
{
    if fs.len() == 0 {
        Seq::empty()
    } else {
        render_fields_spec(fs.drop_last()) + "    "@ + fs.last().0 + ": "@
            + render_type_spec(fs.last().1) + ",\n"@
    }
}

/// The declaration emitted for one record: its annotation line, then one
/// field per source key, in source key order.
pub open spec fn render_record_spec(r: RecordSpec) -> Seq<char> {
    derive_line_spec(r.serde) + "struct "@ + r.name + " {\n"@ + render_fields_spec(r.fields)
        + "}\n"@
}

/// The emitted text of a definition set: the declarations in encounter order,
/// separated by blank lines.
pub open spec fn emit_spec(ds: Seq<RecordSpec>) -> Seq<char>
    decreases ds.len(),
{
    if ds.len() == 0 {
        Seq::empty()
    } else if ds.len() == 1 {
        render_record_spec(ds[0])
    } else {
        emit_spec(ds.drop_last()) + "\n"@ + render_record_spec(ds.last())
    }
}

impl RecordDef {
    /// Renders this record's declaration.
    pub fn render(&self) -> (r: String)
        ensures
            r@ == render_record_spec(self@),
    {
        let ghost fs = view_field_seq(self.fields@);
        let mut out = if self.serde {
            String::from_str("#[derive(Debug, Clone, Serialize, Deserialize)]\n")
        } else {
            String::from_str("#[derive(Debug, Clone)]\n")
        };
        out.append("struct ");
        out.append(self.name.as_str());
        out.append(" {\n");
        let n = self.fields.len();
        let mut i: usize = 0;
        while i < n
            invariant
                n == self.fields@.len(),
                fs == view_field_seq(self.fields@),
                i <= n,
                out@ == derive_line_spec(self.serde) + "struct "@ + self.name@ + " {\n"@
                    + render_fields_spec(fs.take(i as int)),
            decreases n - i,
        {
            let ty = self.fields[i].1.render();
            out.append("    ");
            out.append(self.fields[i].0.as_str());
            out.append(": ");
            out.append(ty.as_str());
            out.append(",\n");
            proof {
                assert(fs.take(i as int + 1).drop_last() =~= fs.take(i as int));
                assert(fs.take(i as int + 1).last() == (self.fields@[i as int].0@,
                    self.fields@[i as int].1@));
                assert(out@ =~= derive_line_spec(self.serde) + "struct "@ + self.name@
                    + " {\n"@ + render_fields_spec(fs.take(i as int + 1)));
            }
            i = i + 1;
        }
        out.append("}\n");
        proof {
            assert(fs.take(n as int) =~= fs);
            assert(out@ =~= render_record_spec(self@));
        }
        out
    }
}

/// Renders a whole definition set in encounter order.
pub fn emit_records(defs: &Vec<RecordDef>) -> (r: String)
    ensures
        r@ == emit_spec(records_view(defs@)),
{
    let ghost ds = records_view(defs@);
    let mut out = String::new();
    let n = defs.len();
    let mut i: usize = 0;
    while i < n
        invariant
            n == defs@.len(),
            ds == records_view(defs@),
            ds.len() == n,
            i <= n,
            out@ == emit_spec(ds.take(i as int)),
        decreases n - i,
    {
        if i > 0 {
            out.append("\n");
        }
        let text = defs[i].render();
        out.append(text.as_str());
        proof {
            assert(ds.take(i as int + 1).drop_last() =~= ds.take(i as int));
            assert(ds.take(i as int + 1).last() == defs@[i as int]@);
            if i > 0 {
                assert(out@ =~= emit_spec(ds.take(i as int)) + "\n"@
                    + render_record_spec(ds[i as int]));
            } else {
                assert(out@ =~= render_record_spec(ds[0]));
            }
        }
        i = i + 1;
    }
    proof {
        assert(ds.take(n as int) =~= ds);
    }
    out
}

} // verus!
