//! Extraction: from the fields of a record to the mapping of the names of
//! those that can be rendered to their texts.

use crate::field_map::{distinct_names, lemma_upsert, mapping_of, upsert, FieldMap};
use crate::record::{
    canonical_text, record_view, render, rendering, Field, FieldValueView, FieldView,
};
use vstd::prelude::*;

verus! {

/// The mapping extracted from the fields of a record: each field that
/// renders maps its name to its text, and fields that do not render leave
/// no trace. Where a name comes more than once, the last field of that
/// name that renders decides.
pub open spec fn extraction(fields: Seq<FieldView>) -> Map<Seq<char>, Seq<char>>
    decreases fields.len(),
{
    if fields.len() == 0 {
        Map::empty()
    } else {
        let earlier = extraction(fields.drop_last());
        match rendering(fields.last().value) {
            Some(text) => earlier.insert(fields.last().name, text),
            None => earlier,
        }
    }
}

/// The extracted pairs in order: a name stands where it first came with a
/// text, beside the text that it last came with.
pub open spec fn extracted_pairs(fields: Seq<FieldView>) -> Seq<(Seq<char>, Seq<char>)>
    decreases fields.len(),
{
    if fields.len() == 0 {
        Seq::empty()
    } else {
        let earlier = extracted_pairs(fields.drop_last());
        match rendering(fields.last().value) {
            Some(text) => upsert(earlier, fields.last().name, text),
            None => earlier,
        }
    }
}

/// Whether a field has the given name and renders.
pub open spec fn renders_as(field: FieldView, name: Seq<char>) -> bool {
    field.name == name && rendering(field.value) is Some
}

/// The extracted pairs hold no name twice, and the mapping they make is
/// the extracted mapping.
pub proof fn lemma_extracted_pairs(fields: Seq<FieldView>)
    ensures
        distinct_names(extracted_pairs(fields)),
        mapping_of(extracted_pairs(fields)) == extraction(fields),
    decreases fields.len(),
{
    if fields.len() == 0 {
        assert(mapping_of(extracted_pairs(fields)) =~= extraction(fields));
    } else {
        lemma_extracted_pairs(fields.drop_last());
        match rendering(fields.last().value) {
            Some(text) => {
                lemma_upsert(extracted_pairs(fields.drop_last()), fields.last().name, text);
            },
            None => {},
        }
    }
}

/// Extracts the mapping from field names to rendered texts out of the
/// fields of a record. A field that is an absent optional, or of no
/// recognized type, is left out; extraction never fails.
pub fn iterate_struct(s: &[Field]) -> (extracted: FieldMap)
    ensures
        extracted.wf(),
        extracted@ == extraction(record_view(s@)),
        extracted.pairs() == extracted_pairs(record_view(s@)),
{
    let ghost fields = record_view(s@);
    let mut extracted = FieldMap::new();
    let mut i: usize = 0;
    while i < s.len()
        invariant
            i <= s.len(),
            fields == record_view(s@),
            extracted.wf(),
            extracted.pairs() == extracted_pairs(fields.take(i as int)),
        decreases s.len() - i,
    {
        proof {
            let upto = fields.take(i + 1);
            assert(upto.drop_last() =~= fields.take(i as int));
            assert(upto.last() == s@[i as int]@);
        }
        match render(&s[i].value) {
            Some(text) => {
                extracted.insert(s[i].name.clone(), text);
            },
            None => {},
        }
        i = i + 1;
    }
    proof {
        assert(fields.take(i as int) =~= fields);
        lemma_extracted_pairs(fields);
    }
    extracted
}

/// A name is a key of the extracted mapping exactly when some field of
/// that name renders.
pub proof fn law_key_iff_rendered(fields: Seq<FieldView>, name: Seq<char>)
    ensures
        extraction(fields).contains_key(name) <==> exists|i: int|
            0 <= i < fields.len() && renders_as(#[trigger] fields[i], name),
    decreases fields.len(),
{
    if fields.len() > 0 {
        let earlier = fields.drop_last();
        law_key_iff_rendered(earlier, name);
        if extraction(fields).contains_key(name) {
            if renders_as(fields.last(), name) {
                assert(renders_as(fields[fields.len() - 1], name));
            } else {
                let i = choose|i: int| 0 <= i < earlier.len() && renders_as(#[trigger] earlier[i], name);
                assert(renders_as(fields[i], name));
            }
        }
        if exists|i: int| 0 <= i < fields.len() && renders_as(#[trigger] fields[i], name) {
            let i = choose|i: int| 0 <= i < fields.len() && renders_as(#[trigger] fields[i], name);
            if i < fields.len() - 1 {
                assert(renders_as(earlier[i], name));
            }
        }
    }
}

/// Whether the field at `i` is the last one of the given name that renders.
pub open spec fn is_last_rendering(fields: Seq<FieldView>, name: Seq<char>, i: int) -> bool {
    &&& 0 <= i < fields.len()
    &&& renders_as(fields[i], name)
    &&& forall|j: int| i < j < fields.len() ==> !renders_as(#[trigger] fields[j], name)
}

/// Where some field of a name renders, one of them is the last to do so.
pub proof fn lemma_last_rendering_exists(fields: Seq<FieldView>, name: Seq<char>)
    requires
        exists|i: int| 0 <= i < fields.len() && renders_as(#[trigger] fields[i], name),
    ensures
        exists|i: int| is_last_rendering(fields, name, i),
    decreases fields.len(),
{
    let earlier = fields.drop_last();
    if renders_as(fields.last(), name) {
        assert(is_last_rendering(fields, name, fields.len() - 1));
    } else {
        let i = choose|i: int| 0 <= i < fields.len() && renders_as(#[trigger] fields[i], name);
        assert(renders_as(earlier[i], name));
        lemma_last_rendering_exists(earlier, name);
        let last = choose|i: int| is_last_rendering(earlier, name, i);
        assert forall|j: int| last < j < fields.len() implies !renders_as(
            #[trigger] fields[j],
            name,
        ) by {
            if j < earlier.len() {
                assert(!renders_as(earlier[j], name));
            }
        }
        assert(is_last_rendering(fields, name, last));
    }
}

/// The extracted mapping sends a name to the text of the last field of
/// that name that renders.
pub proof fn law_last_rendering_decides(fields: Seq<FieldView>, name: Seq<char>, i: int)
    requires
        is_last_rendering(fields, name, i),
    ensures
        extraction(fields).contains_key(name),
        extraction(fields)[name] == rendering(fields[i].value)->0,
    decreases fields.len(),
{
    if i < fields.len() - 1 {
        let earlier = fields.drop_last();
        assert(!renders_as(fields[fields.len() - 1], name));
        assert forall|j: int| i < j < earlier.len() implies !renders_as(
            #[trigger] earlier[j],
            name,
        ) by {
            assert(!renders_as(fields[j], name));
        }
        law_last_rendering_decides(earlier, name, i);
    }
}

/// Extraction is a function of the record alone: whatever two extractions
/// of one record return, they hold the same names, with the same texts, in
/// the same order.
pub proof fn law_extraction_is_pure(fields: Seq<FieldView>, first: FieldMap, second: FieldMap)
    requires
        first@ == extraction(fields),
        first.pairs() == extracted_pairs(fields),
        second@ == extraction(fields),
        second.pairs() == extracted_pairs(fields),
    ensures
        first@.dom() == second@.dom(),
        forall|name: Seq<char>| first@.contains_key(name) ==> first@[name] == second@[name],
        first@ == second@,
        first.pairs() == second.pairs(),
{
}

/// The name of an absent optional field is no key of the extracted
/// mapping, unless another field of the same name renders.
pub proof fn law_absent_is_omitted(fields: Seq<FieldView>, i: int)
    requires
        0 <= i < fields.len(),
        fields[i].value == FieldValueView::Optional(None),
        forall|j: int| 0 <= j < fields.len() ==> !renders_as(#[trigger] fields[j], fields[i].name),
    ensures
        !extraction(fields).contains_key(fields[i].name),
{
    law_key_iff_rendered(fields, fields[i].name);
}

/// The name of a field of no recognized type is no key of the extracted
/// mapping, unless another field of the same name renders.
pub proof fn law_unsupported_is_omitted(fields: Seq<FieldView>, i: int)
    requires
        0 <= i < fields.len(),
        fields[i].value == FieldValueView::Unsupported,
        forall|j: int| 0 <= j < fields.len() ==> !renders_as(#[trigger] fields[j], fields[i].name),
    ensures
        !extraction(fields).contains_key(fields[i].name),
{
    law_key_iff_rendered(fields, fields[i].name);
}

/// The name of a field that holds a scalar directly is always a key of the
/// extracted mapping, and it is mapped to the canonical text of the scalar
/// unless a later field of the same name renders another text.
pub proof fn law_direct_is_rendered(fields: Seq<FieldView>, i: int)
    requires
        0 <= i < fields.len(),
        fields[i].value is Direct,
    ensures
        extraction(fields).contains_key(fields[i].name),
        (forall|j: int|
            i < j < fields.len() && renders_as(#[trigger] fields[j], fields[i].name)
                ==> rendering(fields[j].value) == rendering(fields[i].value))
            ==> extraction(fields)[fields[i].name] == canonical_text(fields[i].value->Direct_0),
{
    let name = fields[i].name;
    assert(renders_as(fields[i], name));
    lemma_last_rendering_exists(fields, name);
    let last = choose|k: int| is_last_rendering(fields, name, k);
    law_last_rendering_decides(fields, name, last);
    if last < i {
        assert(!renders_as(fields[i], name));
    }
}

/// A record without fields, or with none but absent optionals and values
/// of no recognized type, extracts to the empty mapping.
pub proof fn law_nothing_rendered_is_empty(fields: Seq<FieldView>)
    requires
        forall|i: int|
            0 <= i < fields.len() ==> (#[trigger] fields[i]).value == FieldValueView::Optional(None)
                || fields[i].value == FieldValueView::Unsupported,
    ensures
        extraction(fields) == Map::<Seq<char>, Seq<char>>::empty(),
        extracted_pairs(fields) == Seq::<(Seq<char>, Seq<char>)>::empty(),
    decreases fields.len(),
{
    if fields.len() > 0 {
        let earlier = fields.drop_last();
        assert forall|i: int| 0 <= i < earlier.len() implies (#[trigger] earlier[i]).value
            == FieldValueView::Optional(None) || earlier[i].value == FieldValueView::Unsupported by {
            assert(earlier[i] == fields[i]);
        }
        law_nothing_rendered_is_empty(earlier);
        assert(rendering(fields[fields.len() - 1].value) is None);
    }
}

} // verus!
