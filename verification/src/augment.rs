//! The field-augmentation stage: validates the shape of the input descriptor
//! (a named-field record with module-private fields only) and appends the
//! synthetic cache field under a name no existing field carries.

use crate::model::ErrorModel;
use crate::model::FieldDescriptor;
use crate::model::FieldModel;
use crate::model::Shape;
use crate::model::ShapeModel;
use crate::model::StructDescriptor;
use crate::model::StructModel;
use crate::model::TypeModel;
use crate::model::ValidationError;
use crate::model::Visibility;
use crate::model::all_private;
use crate::model::field_names;
use crate::model::first_public;
use crate::model::has_public;
use crate::model::is_first_public;
use crate::model::lemma_first_public_unique;
use crate::model::FieldType;
use crate::names::candidate_name;
use crate::names::lemma_selects_next_counter;
use crate::names::selected_name;
use crate::names::unique_field_name;
use vstd::prelude::*;

verus! {

/// The synthetic cache field for a record with the given fields: named by the
/// unique-name search over the existing field names, typed as an optional
/// opaque text, module-private, and excluded from generic structural
/// serialization.
pub open spec fn synthetic_field_model(fields: Seq<FieldModel>) -> FieldModel {
    FieldModel {
        name: selected_name(field_names(fields)),
        ty: TypeModel::OptionText,
        vis: Visibility::Private,
        skip_serialization: true,
    }
}

/// Law: when a record already declares the candidate names with counters
/// `0` through `k - 1` and not the one with counter `k`, the synthetic field
/// is named with counter `k` exactly.
pub proof fn lemma_synthetic_name_is_next_counter(fields: Seq<FieldModel>, k: nat)
    requires
        forall|j: nat| j < k ==> field_names(fields).contains(#[trigger] candidate_name(j)),
        !field_names(fields).contains(candidate_name(k)),
    ensures
        synthetic_field_model(fields).name == candidate_name(k),
{
    lemma_selects_next_counter(field_names(fields), k);
}

/// What the augmentation stage returns: the descriptor with the synthetic
/// field appended as the last field, or the error that rejects the input.
/// No field is renamed, reordered or dropped besides the single append.
pub open spec fn spec_augment(m: StructModel) -> Result<StructModel, ErrorModel> {
    match m.shape {
        ShapeModel::NamedFields { fields } => {
            if has_public(fields) {
                Err(
                    ErrorModel::PublicFieldNotAllowed {
                        field: fields[first_public(fields)].name,
                    },
                )
            } else {
                Ok(
                    StructModel {
                        name: m.name,
                        shape: ShapeModel::NamedFields {
                            fields: fields.push(synthetic_field_model(fields)),
                        },
                    },
                )
            }
        },
        _ => Err(ErrorModel::UnsupportedShape),
    }
}

/// The model of an augmentation result.
pub open spec fn aug_res_view(r: Result<StructDescriptor, ValidationError>) -> Result<
    StructModel,
    ErrorModel,
> {
    match r {
        Ok(a) => Ok(a@),
        Err(e) => Err(e@),
    }
}

/// Stage 1 of the pipeline. Rejects every shape but a named-field record
/// (`UnsupportedShape`) and every record with a public field
/// (`PublicFieldNotAllowed`, naming the first such field); otherwise appends
/// the synthetic cache field and returns the augmented descriptor.
pub fn augment(d: StructDescriptor) -> (r: Result<StructDescriptor, ValidationError>)
    ensures
        aug_res_view(r) == spec_augment(d@),
{
    let ghost dm = d@;
    let StructDescriptor { name, shape } = d;
    match shape {
        Shape::NamedFields { mut fields } => {
            let ghost fm = fields.deep_view();
            proof {
                assert(dm.shape == ShapeModel::NamedFields { fields: fm });
            }
            let mut i: usize = 0;
            while i < fields.len()
                invariant
                    dm == d@,
                    fm == fields.deep_view(),
                    (dm.shape == ShapeModel::NamedFields { fields: fm }),
                    0 <= i <= fields.len(),
                    fm.len() == fields.len(),
                    forall|j: int| 0 <= j < i ==> fm[j].vis is Private,
                decreases fields.len() - i,
            {
                if fields[i].vis == Visibility::Public {
                    proof {
                        assert(fm[i as int].vis is Public);
                        assert(is_first_public(fm, i as int));
                        assert(exists|j: int| is_first_public(fm, j));
                        assert(is_first_public(fm, first_public(fm)));
                        lemma_first_public_unique(fm, i as int, first_public(fm));
                        assert(has_public(fm));
                    }
                    let err = ValidationError::PublicFieldNotAllowed {
                        field: fields[i].name.clone(),
                    };
                    proof {
                        assert(err@ =~~= ErrorModel::PublicFieldNotAllowed {
                            field: fm[first_public(fm)].name,
                        });
                        assert(spec_augment(dm) == Err::<StructModel, ErrorModel>(
                            ErrorModel::PublicFieldNotAllowed { field: fm[first_public(fm)].name },
                        ));
                        assert(aug_res_view(Err(err)) == spec_augment(dm));
                    }
                    return Err(err);
                }
                i += 1;
            }
            proof {
                assert(all_private(fm));
                assert(!has_public(fm));
            }
            let mut names: Vec<String> = Vec::new();
            proof {
                assert(names.deep_view() =~= field_names(fm).take(0));
            }
            let mut j: usize = 0;
            while j < fields.len()
                invariant
                    fm == fields.deep_view(),
                    0 <= j <= fields.len(),
                    fm.len() == fields.len(),
                    names.deep_view() == field_names(fm).take(j as int),
                decreases fields.len() - j,
            {
                names.push(fields[j].name.clone());
                proof {
                    assert(names.deep_view() =~= field_names(fm).take(j as int).push(
                        fm[j as int].name,
                    ));
                    assert(field_names(fm).take(j as int + 1) =~= field_names(fm).take(
                        j as int,
                    ).push(fm[j as int].name));
                }
                j += 1;
            }
            proof {
                assert(field_names(fm).take(fields.len() as int) =~= field_names(fm));
                assert(names.deep_view() == field_names(fm));
            }
            let synth_name = unique_field_name(&names);
            let synthetic = FieldDescriptor {
                name: synth_name,
                ty: FieldType::OptionText,
                vis: Visibility::Private,
                skip_serialization: true,
            };
            let ghost sm = synthetic@;
            proof {
                assert(sm =~= synthetic_field_model(fm));
            }
            fields.push(synthetic);
            let out = StructDescriptor { name, shape: Shape::NamedFields { fields } };
            proof {
                assert(fields.deep_view() =~= fm.push(sm));
                assert(out@ =~~= StructModel {
                    name: dm.name,
                    shape: ShapeModel::NamedFields { fields: fm.push(synthetic_field_model(fm)) },
                });
            }
            Ok(out)
        },
        Shape::TupleFields => Err(ValidationError::UnsupportedShape),
        Shape::UnitFields => Err(ValidationError::UnsupportedShape),
        Shape::Enumeration => Err(ValidationError::UnsupportedShape),
        Shape::UnionShape => Err(ValidationError::UnsupportedShape),
    }
}

} // verus!
