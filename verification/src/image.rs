//! Image resolver: turns a classified image expression into a concrete image
//! descriptor, either a literal image name or a local build context looked up
//! in the catalog of declared image resources.

use vstd::prelude::*;
use crate::blueprint::ContainerImageBluePrint;
use crate::reference::{classify_spec, extract_and_parse_resource_name, Resource, ResourceModel};
use crate::text::{replace_all, replace_token};
use crate::blueprint::ContainerBluePrint;

verus! {

/// The placeholder token standing for the infrastructure tool's working
/// directory inside a build context expression.
pub open spec fn cwd_placeholder() -> Seq<char> {
    seq!['$', '{', 'p', 'u', 'l', 'u', 'm', 'i', '.', 'c', 'w', 'd', '}']
}

/// The relative-path token that replaces the placeholder.
pub open spec fn cwd_replacement() -> Seq<char> {
    seq!['.']
}

/// A resolved image: exactly one of a literal image name or a local build
/// context path, selected by `is_context`.
#[derive(Debug, PartialEq)]
pub struct DockerImageForPulumi {
    pub name: Option<String>,
    pub path: Option<String>,
    pub is_context: bool,
}

/// Mathematical model of a resolved image.
#[verifier::ext_equal]
pub ghost struct ImageModel {
    pub name: Option<Seq<char>>,
    pub path: Option<Seq<char>>,
    pub is_context: bool,
}

impl DockerImageForPulumi {
    /// The model of this resolved image.
    pub open spec fn model(self) -> ImageModel {
        ImageModel {
            name: match self.name {
                Some(s) => Some(s@),
                None => None,
            },
            path: match self.path {
                Some(s) => Some(s@),
                None => None,
            },
            is_context: self.is_context,
        }
    }
}

/// Whether a catalog entry carries the reference name `name`.
pub open spec fn ref_matches(img: ContainerImageBluePrint, name: Seq<char>) -> bool {
    img.reference_name matches Some(r) && r@ == name
}

/// The first catalog entry carrying the reference name `name`, if any.
pub open spec fn lookup_image(images: Seq<ContainerImageBluePrint>, name: Seq<char>) -> Option<
    ContainerImageBluePrint,
>
    decreases images.len(),
{
    if images.len() == 0 {
        None
    } else if ref_matches(images[0], name) {
        Some(images[0])
    } else {
        lookup_image(images.drop_first(), name)
    }
}

/// Resolution of a classified image expression against the catalog: a literal
/// succeeds unchanged; a reference succeeds exactly when some catalog entry
/// carries its name, yielding that entry's build context with the working
/// directory placeholder replaced by `.`.
pub open spec fn resolve_spec(images: Seq<ContainerImageBluePrint>, r: ResourceModel) -> Option<
    ImageModel,
> {
    if !r.is_reference {
        Some(ImageModel { name: Some(r.name), path: None, is_context: false })
    } else {
        match lookup_image(images, r.name) {
            None => None,
            Some(img) => Some(
                ImageModel {
                    name: None,
                    path: Some(replace_all(img.build.context@, cwd_placeholder(), cwd_replacement())),
                    is_context: true,
                },
            ),
        }
    }
}

/// The working directory placeholder, as a vector.
fn cwd_placeholder_vec() -> (v: Vec<char>)
    ensures
        v@ == cwd_placeholder(),
{
    let mut v: Vec<char> = Vec::new();
    v.push('$');
    v.push('{');
    v.push('p');
    v.push('u');
    v.push('l');
    v.push('u');
    v.push('m');
    v.push('i');
    v.push('.');
    v.push('c');
    v.push('w');
    v.push('d');
    v.push('}');
    proof {
        assert(v@ =~= cwd_placeholder());
    }
    v
}

/// Resolves a classified image expression against the catalog. A literal is
/// returned as an image name; a reference is looked up by its name, first
/// match winning, and yields the entry's build context with the working
/// directory placeholder replaced by `.`; a reference matching no entry
/// yields nothing.
pub fn check_and_match_reference(
    images: &Vec<ContainerImageBluePrint>,
    resource: Resource,
) -> (r: Option<DockerImageForPulumi>)
    ensures
        match r {
            Some(d) => resolve_spec(images@, resource.model()) matches Some(m) && d.model() == m,
            None => resolve_spec(images@, resource.model()) is None,
        },
{
    if !resource.is_reference {
        return Some(
            DockerImageForPulumi { is_context: false, name: Some(resource.name), path: None },
        );
    }
    let ghost name_model = resource.name@;
    proof {
        assert(images@.skip(0) =~= images@);
    }
    let mut idx: usize = 0;
    while idx < images.len()
        invariant
            idx <= images@.len(),
            resource.is_reference,
            name_model == resource.name@,
            lookup_image(images@, name_model) == lookup_image(
                images@.skip(idx as int),
                name_model,
            ),
        decreases images@.len() - idx,
    {
        let matched = match &images[idx].reference_name {
            Some(rn) => rn.eq(&resource.name),
            None => false,
        };
        proof {
            assert(images@.skip(idx as int)[0] == images@[idx as int]);
        }
        if matched {
            let path = replace_token(
                images[idx].build.context.as_str(),
                &cwd_placeholder_vec(),
                ".",
            );
            proof {
                assert(ref_matches(images@[idx as int], name_model));
                assert(lookup_image(images@.skip(idx as int), name_model) == Some(
                    images@[idx as int],
                ));
                assert("."@ =~= cwd_replacement()) by {
                    reveal_strlit(".");
                }
                assert(path@ == replace_all(
                    images@[idx as int].build.context@,
                    cwd_placeholder(),
                    cwd_replacement(),
                ));
                assert(resource.is_reference);
                assert(resolve_spec(images@, resource.model()) == Some(
                    ImageModel {
                        name: None,
                        path: Some(path@),
                        is_context: true,
                    },
                ));
            }
            return Some(DockerImageForPulumi { name: None, path: Some(path), is_context: true });
        }
        proof {
            assert(!ref_matches(images@[idx as int], name_model));
            assert(images@.skip(idx as int).drop_first() =~= images@.skip(idx as int + 1));
        }
        idx = idx + 1;
    }
    proof {
        assert(images@.skip(idx as int) =~= Seq::<ContainerImageBluePrint>::empty());
    }
    None
}

/// Resolution of a container's raw image expression: classification followed
/// by resolution against the catalog.
pub open spec fn image_spec(
    images: Seq<ContainerImageBluePrint>,
    image_expr: Seq<char>,
) -> Option<ImageModel> {
    resolve_spec(images, classify_spec(image_expr))
}

/// Classifies the container's image expression and resolves it against the
/// catalog.
pub fn build_image_for_serialization(
    images: &Vec<ContainerImageBluePrint>,
    container: ContainerBluePrint,
) -> (r: Option<DockerImageForPulumi>)
    ensures
        match r {
            Some(d) => image_spec(images@, container.image@) matches Some(m) && d.model() == m,
            None => image_spec(images@, container.image@) is None,
        },
{
    match extract_and_parse_resource_name(container.image) {
        Ok(resource) => check_and_match_reference(images, resource),
        Err(_) => None,
    }
}

/// A well-formed resolved image holds exactly one of an image name or a build
/// context path, selected by `is_context`.
pub open spec fn image_model_wf(m: ImageModel) -> bool {
    if m.is_context {
        m.name is None && m.path is Some
    } else {
        m.name is Some && m.path is None
    }
}

/// Every successful resolution is well formed: it carries an image name or a
/// build context path, never both.
pub proof fn lemma_resolve_wf(images: Seq<ContainerImageBluePrint>, r: ResourceModel)
    ensures
        resolve_spec(images, r) matches Some(m) ==> image_model_wf(m),
{
}

/// A reference whose name no catalog entry carries resolves to nothing: the
/// container is dropped.
pub proof fn lemma_unresolved_reference_dropped(
    images: Seq<ContainerImageBluePrint>,
    r: ResourceModel,
)
    requires
        r.is_reference,
        forall|i: int| 0 <= i < images.len() ==> !ref_matches(#[trigger] images[i], r.name),
    ensures
        resolve_spec(images, r) is None,
    decreases images.len(),
{
    if images.len() > 0 {
        assert(!ref_matches(images[0], r.name));
        lemma_unresolved_reference_dropped(images.drop_first(), r);
    }
}

} // verus!
