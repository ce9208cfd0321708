use vstd::prelude::*;
use vstd::string::*;

use crate::args::DockerArgs;
use crate::config::E2bConfigToml;
use crate::config::project_docker_image;
use crate::config::project_dockerfile;
use crate::config::project_ecr_image;
use crate::errors::BuildError;
use crate::text::opt_view;
use crate::text::resolve_path;
use crate::text::resolved_path;

verus! {

/// Compiled default base image, used when no other source names one.
pub open spec fn default_image_spec() -> Seq<char> {
    "e2bdev/code-interpreter:latest"@
}

/// Compiled default base image, used when no other source names one.
pub fn default_image() -> (r: String)
    ensures
        r@ == default_image_spec(),
{
    String::from_str("e2bdev/code-interpreter:latest")
}

/// Which of the three build strategies a run uses, with the materials it
/// needs. Exactly one instance exists per run.
pub enum BuildStrategy {
    /// Build locally from a Dockerfile whose content has been read.
    Dockerfile { path: String, content: String },
    /// Pull an existing registry image with credentials and retag it.
    RegistryImage { image_reference: String },
    /// Pull a fallback image without credentials.
    DefaultPull { image_reference: String },
}

/// The strategy choice before any file has been read: selecting a strategy
/// is pure, only obtaining a Dockerfile's content does input.
#[derive(Debug)]
pub enum StrategyPlan {
    /// Read this Dockerfile, then build locally.
    ReadDockerfile { path: String },
    /// Use this registry image.
    UseRegistryImage { image_reference: String },
    /// Fall back to pulling this image without credentials.
    UseDefaultImage { image_reference: String },
}

/// Select the build strategy from per-run input, the project file and the
/// compiled default, as a strict short-circuit chain: a per-run Dockerfile
/// and a per-run registry image together are a conflict; otherwise the first
/// present of per-run Dockerfile, per-run registry image, project-file
/// registry image, project-file Dockerfile (resolved against the project
/// file's directory when relative), project-file default image, compiled
/// default image wins. Later sources are never consulted once an earlier
/// one matches.
pub fn resolve_build_input(
    docker: &DockerArgs,
    project: &E2bConfigToml,
    project_dir: &Option<String>,
) -> (r: Result<StrategyPlan, BuildError>)
    ensures
        docker.docker_file is Some && docker.ecr_image is Some ==> r matches Err(
            BuildError::InputConflict,
        ),
        r matches Err(e) ==> (e matches BuildError::InputConflict && docker.docker_file is Some
            && docker.ecr_image is Some),
        docker.ecr_image is None ==> (docker.docker_file matches Some(p) ==> (r matches Ok(
            StrategyPlan::ReadDockerfile { path },
        ) && path == p)),
        docker.docker_file is None ==> (docker.ecr_image matches Some(img) ==> (r matches Ok(
            StrategyPlan::UseRegistryImage { image_reference },
        ) && image_reference == img)),
        docker.docker_file is None && docker.ecr_image is None ==> (project_ecr_image(
            project,
        ) matches Some(img) ==> (r matches Ok(StrategyPlan::UseRegistryImage { image_reference })
            && image_reference == img)),
        docker.docker_file is None && docker.ecr_image is None && project_ecr_image(project)
            is None ==> (project_dockerfile(project) matches Some(p) ==> (r matches Ok(
            StrategyPlan::ReadDockerfile { path },
        ) && path@ == resolved_path(p@, opt_view(project_dir)))),
        docker.docker_file is None && docker.ecr_image is None && project_ecr_image(project)
            is None && project_dockerfile(project) is None ==> (project_docker_image(
            project,
        ) matches Some(img) ==> (r matches Ok(StrategyPlan::UseDefaultImage { image_reference })
            && image_reference == img)),
        docker.docker_file is None && docker.ecr_image is None && project_ecr_image(project)
            is None && project_dockerfile(project) is None && project_docker_image(project)
            is None ==> (r matches Ok(StrategyPlan::UseDefaultImage { image_reference })
            && image_reference@ == default_image_spec()),
{
    match (&docker.docker_file, &docker.ecr_image) {
        (Some(_), Some(_)) => Err(BuildError::InputConflict),
        (Some(path), None) => Ok(StrategyPlan::ReadDockerfile { path: path.clone() }),
        (None, Some(image)) => Ok(
            StrategyPlan::UseRegistryImage { image_reference: image.clone() },
        ),
        (None, None) => {
            let project_docker = &project.docker;
            let ecr_image = match project_docker {
                Some(d) => &d.ecr_image,
                None => &None,
            };
            if let Some(image) = ecr_image {
                return Ok(StrategyPlan::UseRegistryImage { image_reference: image.clone() });
            }
            let dockerfile = match project_docker {
                Some(d) => &d.dockerfile,
                None => &None,
            };
            if let Some(p) = dockerfile {
                let path = resolve_path(p.as_str(), project_dir);
                return Ok(StrategyPlan::ReadDockerfile { path });
            }
            let docker_image = match project_docker {
                Some(d) => &d.docker_image,
                None => &None,
            };
            if let Some(img) = docker_image {
                return Ok(StrategyPlan::UseDefaultImage { image_reference: img.clone() });
            }
            Ok(StrategyPlan::UseDefaultImage { image_reference: default_image() })
        },
    }
}

/// A single-line directive naming a base image.
pub open spec fn from_line(image: Seq<char>) -> Seq<char> {
    "FROM "@ + image
}

/// A single-line directive naming a base image.
pub fn synthesized_from_line(image: &str) -> (r: String)
    ensures
        r@ == from_line(image@),
{
    let mut s = String::from_str("FROM ");
    s.append(image);
    s
}

/// The Dockerfile content a strategy contributes to the create-template
/// call: the file's content for a local build, a synthesized single-line
/// directive otherwise.
pub open spec fn strategy_content(s: &BuildStrategy) -> Seq<char> {
    match s {
        BuildStrategy::Dockerfile { path, content } => content@,
        BuildStrategy::RegistryImage { image_reference } => from_line(image_reference@),
        BuildStrategy::DefaultPull { image_reference } => from_line(image_reference@),
    }
}

/// The Dockerfile content a strategy contributes to the create-template
/// call.
pub fn strategy_dockerfile_content(s: &BuildStrategy) -> (r: String)
    ensures
        r@ == strategy_content(s),
{
    match s {
        BuildStrategy::Dockerfile { path: _, content } => content.clone(),
        BuildStrategy::RegistryImage { image_reference } => synthesized_from_line(
            image_reference.as_str(),
        ),
        BuildStrategy::DefaultPull { image_reference } => synthesized_from_line(
            image_reference.as_str(),
        ),
    }
}

} // verus!
