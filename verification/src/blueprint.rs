//! Blueprint types: the already-parsed, dialect-independent description of
//! container applications and image resources that the translation consumes.

use vstd::prelude::*;

verus! {

/// Source dialect a blueprint was written in.
#[derive(Debug, Clone, Copy, PartialEq, Eq)]
pub enum Language {
    Yaml,
    Typescript,
    Javascript,
    Bicep,
}

/// One container of an application: its name and its image expression, which
/// is either a literal image tag or an interpolation referencing an image
/// resource.
#[derive(Debug)]
pub struct ContainerBluePrint {
    pub image: String,
    pub name: String,
}

/// The build context an image resource was declared with.
#[derive(Debug)]
pub struct BuildContextBluePrint {
    pub context: String,
}

/// A declared image resource: the name other blueprints reference it by, and
/// the build context expression it carries.
#[derive(Debug)]
pub struct ContainerImageBluePrint {
    pub name: Option<String>,
    pub build: BuildContextBluePrint,
    pub reference_name: Option<String>,
}

/// The optional service-mesh (dapr) settings of an application.
#[derive(Debug)]
pub struct DaprBluePrint {
    pub enabled: Option<bool>,
    pub app_port: Option<u32>,
    pub app_id: Option<String>,
}

/// The optional ingress settings of an application.
#[derive(Debug)]
pub struct IngressBluePrint {
    pub external: Option<bool>,
    pub target_port: Option<u32>,
}

/// The configuration block of an application: mesh and ingress settings.
#[derive(Debug)]
pub struct ConfigurationBluePrint {
    pub dapr: Option<DaprBluePrint>,
    pub ingress: Option<IngressBluePrint>,
}

/// The template block of an application: its containers.
#[derive(Debug)]
pub struct TemplateBluePrint {
    pub containers: Option<Vec<ContainerBluePrint>>,
}

/// One declared container application.
#[derive(Debug)]
pub struct ContainerAppBluePrint {
    pub configuration: Option<ConfigurationBluePrint>,
    pub template: Option<TemplateBluePrint>,
}

/// One container together with the mesh and ingress settings of the
/// application it belongs to.
#[derive(Debug)]
pub struct AppConfiguration {
    pub container: ContainerBluePrint,
    pub dapr_configuration: Option<DaprBluePrint>,
    pub ingress_configuration: Option<IngressBluePrint>,
}

/// Copy of an optional string; the copy equals the original.
pub fn clone_opt_string(o: &Option<String>) -> (r: Option<String>)
    ensures
        r == *o,
{
    match o {
        Some(s) => Some(s.clone()),
        None => None,
    }
}

/// Copy of a container blueprint; the copy equals the original.
pub fn clone_container(c: &ContainerBluePrint) -> (r: ContainerBluePrint)
    ensures
        r == *c,
{
    ContainerBluePrint { image: c.image.clone(), name: c.name.clone() }
}

/// Copy of optional mesh settings; the copy equals the original.
pub fn clone_dapr(o: &Option<DaprBluePrint>) -> (r: Option<DaprBluePrint>)
    ensures
        r == *o,
{
    match o {
        Some(d) => Some(
            DaprBluePrint {
                enabled: d.enabled,
                app_port: d.app_port,
                app_id: clone_opt_string(&d.app_id),
            },
        ),
        None => None,
    }
}

/// Copy of optional ingress settings; the copy equals the original.
pub fn clone_ingress(o: &Option<IngressBluePrint>) -> (r: Option<IngressBluePrint>)
    ensures
        r == *o,
{
    match o {
        Some(i) => Some(IngressBluePrint { external: i.external, target_port: i.target_port }),
        None => None,
    }
}

} // verus!
