//! The accessor/interface synthesis stage: splits the augmented descriptor
//! into its real fields and the synthetic cache field, rewrites reference
//! types to the single fresh lifetime, and describes the code to be emitted —
//! the signing-capability interface implementation, the constructor, and one
//! getter/setter pair per real field.

use crate::model::ErrorModel;
use crate::model::FieldModel;
use crate::model::FieldType;
use crate::model::Shape;
use crate::model::ShapeModel;
use crate::model::StructDescriptor;
use crate::model::StructModel;
use crate::model::TypeModel;
use crate::model::ValidationError;
use vstd::prelude::*;
use vstd::string::StringExecFns;

verus! {

/// The one fresh lifetime name every rewritten reference type carries, so
/// that the generated constructor and accessors stay lifetime-consistent
/// with the enclosing type.
pub open spec fn fresh_lifetime() -> Seq<char> {
    "sig"@
}

/// The prefix of every generated setter's name.
pub open spec fn setter_prefix() -> Seq<char> {
    "set_"@
}

/// A parameter of the generated constructor.
#[derive(Debug, PartialEq, Eq)]
pub struct Parameter {
    pub name: String,
    pub ty: FieldType,
}

/// Mathematical model of a `Parameter`.
#[verifier::ext_equal]
pub struct ParameterModel {
    pub name: Seq<char>,
    pub ty: TypeModel,
}

impl View for Parameter {
    type V = ParameterModel;

    open spec fn view(&self) -> ParameterModel {
        ParameterModel { name: self.name@, ty: self.ty@ }
    }
}

impl DeepView for Parameter {
    type V = ParameterModel;

    open spec fn deep_view(&self) -> ParameterModel {
        self.view()
    }
}

/// The generated implementation of the signing-capability interface: its
/// three operations — read the cached text (or absent), clear it to absent,
/// write a given text — all delegate to the synthetic cache field named here.
#[derive(Debug, PartialEq, Eq)]
pub struct SignedImpl {
    pub cache_field: String,
}

/// Mathematical model of a `SignedImpl`.
#[verifier::ext_equal]
pub struct SignedImplModel {
    pub cache_field: Seq<char>,
}

impl View for SignedImpl {
    type V = SignedImplModel;

    open spec fn view(&self) -> SignedImplModel {
        SignedImplModel { cache_field: self.cache_field@ }
    }
}

impl DeepView for SignedImpl {
    type V = SignedImplModel;

    open spec fn deep_view(&self) -> SignedImplModel {
        self.view()
    }
}

/// The generated constructor: takes the real fields, in declared order, and
/// initializes the cache field named here to absent — a freshly constructed
/// value is never pre-cached.
#[derive(Debug, PartialEq, Eq)]
pub struct Constructor {
    pub params: Vec<Parameter>,
    pub cache_field: String,
}

/// Mathematical model of a `Constructor`.
#[verifier::ext_equal]
pub struct ConstructorModel {
    pub params: Seq<ParameterModel>,
    pub cache_field: Seq<char>,
}

impl View for Constructor {
    type V = ConstructorModel;

    open spec fn view(&self) -> ConstructorModel {
        ConstructorModel { params: self.params.deep_view(), cache_field: self.cache_field@ }
    }
}

impl DeepView for Constructor {
    type V = ConstructorModel;

    open spec fn deep_view(&self) -> ConstructorModel {
        self.view()
    }
}

/// One generated getter/setter pair. The getter carries the field's own name
/// and returns a borrowed view of the field; the setter overwrites the field
/// and, because the cached text becomes stale on mutation, always clears the
/// cache (`clears_cache` records that obligation).
#[derive(Debug, PartialEq, Eq)]
pub struct AccessorPair {
    pub field: String,
    pub setter_name: String,
    pub ty: FieldType,
    pub clears_cache: bool,
}

/// Mathematical model of an `AccessorPair`.
#[verifier::ext_equal]
pub struct AccessorModel {
    pub field: Seq<char>,
    pub setter_name: Seq<char>,
    pub ty: TypeModel,
    pub clears_cache: bool,
}

impl View for AccessorPair {
    type V = AccessorModel;

    open spec fn view(&self) -> AccessorModel {
        AccessorModel {
            field: self.field@,
            setter_name: self.setter_name@,
            ty: self.ty@,
            clears_cache: self.clears_cache,
        }
    }
}

impl DeepView for AccessorPair {
    type V = AccessorModel;

    open spec fn deep_view(&self) -> AccessorModel {
        self.view()
    }
}

/// The generated artifact: the augmented definition together with the
/// interface implementation, the constructor, and the accessor pairs, in
/// field declaration order.
#[derive(Debug, PartialEq, Eq)]
pub struct GeneratedArtifact {
    pub augmented: StructDescriptor,
    pub signed_impl: SignedImpl,
    pub constructor: Constructor,
    pub accessors: Vec<AccessorPair>,
}

/// Mathematical model of a `GeneratedArtifact`.
#[verifier::ext_equal]
pub struct ArtifactModel {
    pub augmented: StructModel,
    pub signed_impl: SignedImplModel,
    pub constructor: ConstructorModel,
    pub accessors: Seq<AccessorModel>,
}

impl View for GeneratedArtifact {
    type V = ArtifactModel;

    open spec fn view(&self) -> ArtifactModel {
        ArtifactModel {
            augmented: self.augmented@,
            signed_impl: self.signed_impl@,
            constructor: self.constructor@,
            accessors: self.accessors.deep_view(),
        }
    }
}

impl DeepView for GeneratedArtifact {
    type V = ArtifactModel;

    open spec fn deep_view(&self) -> ArtifactModel {
        self.view()
    }
}

/// The type rewriting rule: a reference type gets the single fresh lifetime
/// in place of whatever lifetime annotation it carried; every other type is
/// copied unchanged.
pub open spec fn rewrite_type_model(t: TypeModel) -> TypeModel {
    match t {
        TypeModel::Reference { lifetime: _, target } => TypeModel::Reference {
            lifetime: Some(fresh_lifetime()),
            target,
        },
        _ => t,
    }
}

/// The constructor parameter generated for one real field.
pub open spec fn param_of(f: FieldModel) -> ParameterModel {
    ParameterModel { name: f.name, ty: rewrite_type_model(f.ty) }
}

/// The getter/setter pair generated for one real field.
pub open spec fn accessor_of(f: FieldModel) -> AccessorModel {
    AccessorModel {
        field: f.name,
        setter_name: setter_prefix() + f.name,
        ty: rewrite_type_model(f.ty),
        clears_cache: true,
    }
}

/// What the synthesis stage returns: the artifact whose real fields are all
/// fields but the last (the synthetic cache field, by the augmentation
/// stage's invariant), or the error that rejects the descriptor — a shape
/// without named fields, or one with no real field besides the cache field.
pub open spec fn spec_synthesize(m: StructModel) -> Result<ArtifactModel, ErrorModel> {
    match m.shape {
        ShapeModel::NamedFields { fields } => {
            if fields.len() <= 1 {
                Err(ErrorModel::EmptyStruct)
            } else {
                let real_fields = fields.drop_last();
                let cache = fields.last();
                Ok(
                    ArtifactModel {
                        augmented: m,
                        signed_impl: SignedImplModel { cache_field: cache.name },
                        constructor: ConstructorModel {
                            params: real_fields.map_values(|f: FieldModel| param_of(f)),
                            cache_field: cache.name,
                        },
                        accessors: real_fields.map_values(|f: FieldModel| accessor_of(f)),
                    },
                )
            }
        },
        _ => Err(ErrorModel::UnsupportedShape),
    }
}

/// The model of a synthesis result.
pub open spec fn art_res_view(r: Result<GeneratedArtifact, ValidationError>) -> Result<
    ArtifactModel,
    ErrorModel,
> {
    match r {
        Ok(a) => Ok(a@),
        Err(e) => Err(e@),
    }
}

/// Applies the type rewriting rule to one declared type.
pub fn rewrite_type(t: &FieldType) -> (r: FieldType)
    ensures
        r@ == rewrite_type_model(t@),
{
    match t {
        FieldType::Plain { name } => FieldType::Plain { name: name.clone() },
        FieldType::Reference { lifetime: _, target } => FieldType::Reference {
            lifetime: Some(String::from_str("sig")),
            target: target.clone(),
        },
        FieldType::OptionText => FieldType::OptionText,
    }
}

/// The name of the setter generated for a field: the setter prefix followed
/// by the field's own name.
pub fn setter_name_for(field: &String) -> (r: String)
    ensures
        r@ == setter_prefix() + field@,
{
    let mut s = String::from_str("set_");
    s.append(field.as_str());
    s
}

/// Stage 2 of the pipeline. Treats the last field as the synthetic cache
/// field, all preceding fields as the real fields, and generates the
/// interface implementation, the constructor and the accessor pairs, in
/// field declaration order.
pub fn synthesize(a: StructDescriptor) -> (r: Result<GeneratedArtifact, ValidationError>)
    ensures
        art_res_view(r) == spec_synthesize(a@),
{
    let ghost am = a@;
    let StructDescriptor { name, shape } = a;
    match shape {
        Shape::NamedFields { fields } => {
            let ghost fm = fields.deep_view();
            proof {
                assert(am.shape == ShapeModel::NamedFields { fields: fm });
            }
            let n = fields.len();
            if n <= 1 {
                return Err(ValidationError::EmptyStruct);
            }
            let ghost real_fields = fm.drop_last();
            let mut params: Vec<Parameter> = Vec::new();
            let mut accessors: Vec<AccessorPair> = Vec::new();
            proof {
                assert(params.deep_view() =~= real_fields.map_values(|f: FieldModel| param_of(f)).take(
                    0,
                ));
                assert(accessors.deep_view() =~= real_fields.map_values(
                    |f: FieldModel| accessor_of(f),
                ).take(0));
            }
            let mut i: usize = 0;
            while i < n - 1
                invariant
                    fm == fields.deep_view(),
                    fm.len() == fields.len(),
                    n == fields.len(),
                    1 < n,
                    real_fields == fm.drop_last(),
                    0 <= i <= n - 1,
                    (params.deep_view() == real_fields.map_values(|f: FieldModel| param_of(f)).take(
                        i as int,
                    )),
                    (accessors.deep_view() == real_fields.map_values(|f: FieldModel| accessor_of(f)).take(
                        i as int,
                    )),
                decreases n - 1 - i,
            {
                let param = Parameter {
                    name: fields[i].name.clone(),
                    ty: rewrite_type(&fields[i].ty),
                };
                let ghost pm = param@;
                let accessor = AccessorPair {
                    field: fields[i].name.clone(),
                    setter_name: setter_name_for(&fields[i].name),
                    ty: rewrite_type(&fields[i].ty),
                    clears_cache: true,
                };
                let ghost cm = accessor@;
                proof {
                    assert(real_fields[i as int] == fm[i as int]);
                    assert(pm.ty =~~= param_of(real_fields[i as int]).ty);
                    assert(pm =~~= param_of(real_fields[i as int]));
                    assert(cm =~~= accessor_of(real_fields[i as int]));
                }
                params.push(param);
                accessors.push(accessor);
                proof {
                    let pspec = real_fields.map_values(|f: FieldModel| param_of(f));
                    let aspec = real_fields.map_values(|f: FieldModel| accessor_of(f));
                    assert(params.deep_view() =~= pspec.take(i as int).push(pm));
                    assert(pspec.take(i as int + 1) =~= pspec.take(i as int).push(
                        param_of(real_fields[i as int]),
                    ));
                    assert(accessors.deep_view() =~= aspec.take(i as int).push(cm));
                    assert(aspec.take(i as int + 1) =~= aspec.take(i as int).push(
                        accessor_of(real_fields[i as int]),
                    ));
                }
                i += 1;
            }
            let cache_field = fields[n - 1].name.clone();
            let ghost cfm = cache_field@;
            proof {
                assert(cfm == fm.last().name);
                let pspec = real_fields.map_values(|f: FieldModel| param_of(f));
                let aspec = real_fields.map_values(|f: FieldModel| accessor_of(f));
                assert(pspec.take(n - 1) =~= pspec);
                assert(aspec.take(n - 1) =~= aspec);
            }
            let augmented = StructDescriptor { name, shape: Shape::NamedFields { fields } };
            proof {
                assert(augmented@ =~~= am);
            }
            let out = GeneratedArtifact {
                augmented,
                signed_impl: SignedImpl { cache_field: cache_field.clone() },
                constructor: Constructor { params, cache_field },
                accessors,
            };
            proof {
                assert(out@ =~~= ArtifactModel {
                    augmented: am,
                    signed_impl: SignedImplModel { cache_field: fm.last().name },
                    constructor: ConstructorModel {
                        params: real_fields.map_values(|f: FieldModel| param_of(f)),
                        cache_field: fm.last().name,
                    },
                    accessors: real_fields.map_values(|f: FieldModel| accessor_of(f)),
                });
            }
            Ok(out)
        },
        Shape::TupleFields => Err(ValidationError::UnsupportedShape),
        Shape::UnitFields => Err(ValidationError::UnsupportedShape),
        Shape::Enumeration => Err(ValidationError::UnsupportedShape),
        Shape::UnionShape => Err(ValidationError::UnsupportedShape),
    }
}

} // verus!
