use vstd::prelude::*;

verus! {

/// Per-run template parameters of the build subcommand.
pub struct E2bArgs {
    pub memory_mb: Option<u32>,
    pub cpu_count: Option<u32>,
    pub start_cmd: Option<String>,
    pub ready_cmd: Option<String>,
    pub alias: Option<String>,
    pub template_id: Option<String>,
}

/// Per-run image parameters of the build subcommand.
pub struct DockerArgs {
    pub docker_file: Option<String>,
    pub ecr_image: Option<String>,
    pub base_image: Option<String>,
}

/// All per-run input of the build subcommand.
pub struct BuildArgs {
    pub config_path: Option<String>,
    pub e2b: E2bArgs,
    pub docker: DockerArgs,
}

/// Per-run input of the list subcommand.
pub struct ListArgs {
    pub team: Option<String>,
}

/// Arguments forwarded verbatim after the sandbox subcommand.
pub struct SandboxArgs {
    pub args: Vec<String>,
}

/// Template-related subcommands.
pub enum TemplateCommand {
    Build(BuildArgs),
    List(ListArgs),
}

/// Every subcommand the tool accepts.
pub enum AwsE2bCommand {
    Template { command: TemplateCommand },
    Sandbox(SandboxArgs),
}

/// The whole parsed invocation.
pub struct AwsE2bCli {
    pub command: AwsE2bCommand,
}

} // verus!
