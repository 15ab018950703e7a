//! The whole pipeline — augmentation, then synthesis, strictly sequential —
//! and the laws that hold of it: every well-formed all-private record with at
//! least one field succeeds with exactly one appended synthetic field and one
//! accessor pair per original field; a public field or a foreign shape is
//! rejected with its own error and nothing is emitted; and a name-collision
//! failure can never occur.

use crate::augment::aug_res_view;
use crate::augment::augment;
use crate::augment::spec_augment;
use crate::augment::synthetic_field_model;
use crate::model::ErrorModel;
use crate::model::ShapeModel;
use crate::model::StructDescriptor;
use crate::model::StructModel;
use crate::model::ValidationError;
use crate::model::all_private;
use crate::model::field_names;
use crate::model::first_public;
use crate::model::has_public;
use crate::model::is_first_public;
use crate::model::lemma_first_public_exists;
use crate::model::shape_fields;
use crate::names::least_free;
use crate::names::lemma_selects_exists;
use crate::names::selects;
use crate::synth::ArtifactModel;
use crate::synth::GeneratedArtifact;
use crate::synth::accessor_of;
use crate::synth::art_res_view;
use crate::synth::param_of;
use crate::synth::spec_synthesize;
use crate::synth::synthesize;
use vstd::prelude::*;

verus! {

/// What the whole pipeline returns: the artifact of the synthesis stage
/// applied to the augmented descriptor, or the first error on the way.
pub open spec fn spec_process(m: StructModel) -> Result<ArtifactModel, ErrorModel> {
    match spec_augment(m) {
        Ok(a) => spec_synthesize(a),
        Err(e) => Err(e),
    }
}

/// Runs the pipeline on one structural definition: validation and field
/// augmentation, then accessor/interface synthesis. Either the full artifact
/// is produced or the first validation error is returned — never a partial
/// artifact.
pub fn process(d: StructDescriptor) -> (r: Result<GeneratedArtifact, ValidationError>)
    ensures
        art_res_view(r) == spec_process(d@),
{
    let ghost dm = d@;
    match augment(d) {
        Ok(a) => {
            let ghost am = a@;
            proof {
                assert(aug_res_view(Ok(a)) == spec_augment(dm));
                assert(spec_augment(dm) == Ok::<StructModel, ErrorModel>(am));
            }
            let r = synthesize(a);
            proof {
                assert(art_res_view(r) == spec_synthesize(am));
            }
            r
        },
        Err(e) => {
            proof {
                assert(spec_augment(dm) == Err::<StructModel, ErrorModel>(e@));
            }
            Err(e)
        },
    }
}

/// Law: on a named-field record whose fields are all private, with at least
/// one field, the pipeline succeeds; the augmented definition carries the
/// original fields unchanged plus exactly one synthetic field, appended last,
/// under a name no original field carries; and the artifact holds one
/// constructor parameter and one getter/setter pair per original field, every
/// setter clearing the cache.
pub proof fn lemma_pipeline_succeeds(m: StructModel)
    requires
        m.shape is NamedFields,
        all_private(shape_fields(m.shape)),
        shape_fields(m.shape).len() >= 1,
    ensures
        spec_process(m) is Ok,
        ({
            let fields = shape_fields(m.shape);
            let art = spec_process(m)->Ok_0;
            let aug_fields = shape_fields(art.augmented.shape);
            &&& art.augmented.name == m.name
            &&& art.augmented.shape is NamedFields
            &&& aug_fields.len() == fields.len() + 1
            &&& aug_fields.take(fields.len() as int) == fields
            &&& aug_fields.last() == synthetic_field_model(fields)
            &&& !field_names(fields).contains(aug_fields.last().name)
            &&& art.signed_impl.cache_field == aug_fields.last().name
            &&& art.constructor.cache_field == aug_fields.last().name
            &&& art.constructor.params.len() == fields.len()
            &&& art.accessors.len() == fields.len()
            &&& forall|i: int|
                0 <= i < fields.len() ==> (#[trigger] art.accessors[i]) == accessor_of(fields[i])
            &&& forall|i: int|
                0 <= i < fields.len() ==> (#[trigger] art.constructor.params[i]) == param_of(
                    fields[i],
                )
            &&& forall|i: int| 0 <= i < fields.len() ==> (#[trigger] art.accessors[i]).clears_cache
        }),
{
    let fields = shape_fields(m.shape);
    assert(!has_public(fields));
    let synth = synthetic_field_model(fields);
    let aug_fields = fields.push(synth);
    assert(spec_augment(m) == Ok::<StructModel, ErrorModel>(
        StructModel { name: m.name, shape: ShapeModel::NamedFields { fields: aug_fields } },
    ));
    lemma_selects_exists(field_names(fields));
    assert(selects(field_names(fields), least_free(field_names(fields))));
    assert(!field_names(fields).contains(synth.name));
    let am = StructModel { name: m.name, shape: ShapeModel::NamedFields { fields: aug_fields } };
    assert(aug_fields.len() == fields.len() + 1);
    assert(spec_synthesize(am) is Ok);
    let art = spec_synthesize(am)->Ok_0;
    assert(aug_fields.drop_last() =~= fields);
    assert(aug_fields.take(fields.len() as int) =~= fields);
    assert(art.constructor.params == fields.map_values(|f| param_of(f)));
    assert(art.accessors == fields.map_values(|f| accessor_of(f)));
}

/// Law: on any record with a public field the pipeline fails with
/// `PublicFieldNotAllowed`, naming the first public field, and emits nothing.
pub proof fn lemma_public_field_rejected(m: StructModel)
    requires
        m.shape is NamedFields,
        has_public(shape_fields(m.shape)),
    ensures
        ({
            let fields = shape_fields(m.shape);
            &&& is_first_public(fields, first_public(fields))
            &&& spec_process(m) == Err::<ArtifactModel, ErrorModel>(
                ErrorModel::PublicFieldNotAllowed { field: fields[first_public(fields)].name },
            )
        }),
{
    let fields = shape_fields(m.shape);
    let w = choose|i: int| 0 <= i < fields.len() && #[trigger] fields[i].vis is Public;
    lemma_first_public_exists(fields, w);
    assert(is_first_public(fields, first_public(fields)));
}

/// Law: on any shape that is not a named-field record the pipeline fails with
/// `UnsupportedShape` and emits nothing.
pub proof fn lemma_non_record_rejected(m: StructModel)
    requires
        !(m.shape is NamedFields),
    ensures
        spec_process(m) == Err::<ArtifactModel, ErrorModel>(ErrorModel::UnsupportedShape),
{
}

/// Law: a named-field record with no field at all passes augmentation (the
/// synthetic field alone is appended) and then fails synthesis with
/// `EmptyStruct`: there is no real field to generate accessors for.
pub proof fn lemma_empty_record_rejected(m: StructModel)
    requires
        m.shape is NamedFields,
        shape_fields(m.shape).len() == 0,
    ensures
        spec_process(m) == Err::<ArtifactModel, ErrorModel>(ErrorModel::EmptyStruct),
{
    let fields = shape_fields(m.shape);
    assert(!has_public(fields));
    assert(fields.push(synthetic_field_model(fields)).len() == 1);
}

/// Law: the pipeline can never fail with `NameCollisionExhausted` — the
/// unique-name search always finds a free name.
pub proof fn lemma_name_collision_never_occurs(m: StructModel)
    ensures
        spec_process(m) != Err::<ArtifactModel, ErrorModel>(ErrorModel::NameCollisionExhausted),
{
    if m.shape is NamedFields {
        let fields = shape_fields(m.shape);
        if has_public(fields) {
            assert(spec_process(m) == Err::<ArtifactModel, ErrorModel>(
                ErrorModel::PublicFieldNotAllowed { field: fields[first_public(fields)].name },
            ));
        }
    }
}

} // verus!
