//! The enrichment fields a caller can ask the lookup service for.

use vstd::prelude::*;

verus! {

/// An enrichment category of the lookup service.
#[derive(Clone, Copy, Debug, PartialEq, Eq, Structural)]
pub enum LookupField {
    CallerName,
    LineTypeIntelligence,
}

impl LookupField {
    /// The token that stands for this field in a query string.
    pub open spec fn wire_name(self) -> Seq<char> {
        match self {
            LookupField::CallerName => "caller_name"@,
            LookupField::LineTypeIntelligence => "line_type_intelligence"@,
        }
    }

    /// Returns the token that stands for this field in a query string.
    pub fn name(&self) -> (token: &'static str)
        ensures
            token@ == self.wire_name(),
    {
        match self {
            LookupField::CallerName => "caller_name",
            LookupField::LineTypeIntelligence => "line_type_intelligence",
        }
    }
}

/// The wire names of a sequence of fields, in the same order.
pub open spec fn wire_names(fields: Seq<LookupField>) -> Seq<Seq<char>> {
    fields.map_values(|f: LookupField| f.wire_name())
}

/// Distinct fields have distinct wire names.
pub proof fn lemma_wire_name_injective(a: LookupField, b: LookupField)
    ensures
        a.wire_name() == b.wire_name() <==> a == b,
{
    reveal_strlit("caller_name");
    reveal_strlit("line_type_intelligence");
    assert("caller_name"@.len() == 11);
    assert("line_type_intelligence"@.len() == 22);
}

/// A list of wire names stands for one list of fields only.
pub proof fn lemma_wire_names_injective(a: Seq<LookupField>, b: Seq<LookupField>)
    ensures
        wire_names(a) == wire_names(b) <==> a == b,
{
    if wire_names(a) == wire_names(b) {
        assert(a.len() == wire_names(a).len());
        assert(b.len() == wire_names(b).len());
        assert forall|i: int| 0 <= i < a.len() implies a[i] == b[i] by {
            assert(wire_names(a)[i] == a[i].wire_name());
            assert(wire_names(b)[i] == b[i].wire_name());
            lemma_wire_name_injective(a[i], b[i]);
        }
        assert(a =~= b);
    }
}

/// The fields that a pair of command-line switches selects: each switch adds
/// its field, caller name first, and with neither switch set both fields are
/// selected.
pub open spec fn selected_fields(caller_name: bool, line_type: bool) -> Seq<LookupField> {
    if caller_name && line_type {
        seq![LookupField::CallerName, LookupField::LineTypeIntelligence]
    } else if caller_name {
        seq![LookupField::CallerName]
    } else if line_type {
        seq![LookupField::LineTypeIntelligence]
    } else {
        seq![LookupField::CallerName, LookupField::LineTypeIntelligence]
    }
}

/// Builds the field list that the two switches select.
pub fn requested_fields(caller_name: bool, line_type: bool) -> (fields: Vec<LookupField>)
    ensures
        fields@ == selected_fields(caller_name, line_type),
{
    let mut fields: Vec<LookupField> = Vec::new();
    if caller_name {
        fields.push(LookupField::CallerName);
    }
    if line_type {
        fields.push(LookupField::LineTypeIntelligence);
    }
    if fields.len() == 0 {
        fields.push(LookupField::CallerName);
        fields.push(LookupField::LineTypeIntelligence);
    }
    fields
}

} // verus!
