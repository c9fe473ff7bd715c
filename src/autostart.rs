//! Starting the agent at login, through auto-launch.
use vstd::prelude::*;

verus! {

/// The name under which the agent is registered to start at login.
pub const AUTOSTART_APP_NAME: &'static str = "ssh_clipboard";

/// The argument the agent is started with at login.
pub const AUTOSTART_ARG: &'static str = "--autostart";

#[verifier::external_type_specification]
#[verifier::external_body]
pub struct ExAutoLaunch(auto_launch::AutoLaunch);

/// Relies on `auto_launch::AutoLaunchBuilder`: an entry that starts `app_path` with `arg`
/// under `app_name`, or why none could be made.
#[verifier::external_body]
fn build_auto_launch(app_name: &str, app_path: &str, arg: &str) -> (r: Result<
    auto_launch::AutoLaunch,
    String,
>) {
    auto_launch::AutoLaunchBuilder::new()
        .set_app_name(app_name)
        .set_app_path(app_path)
        .set_args(&[arg])
        .build()
        .map_err(|err| err.to_string())
}

/// Relies on `auto_launch::AutoLaunch::enable`.
#[verifier::external_body]
fn launch_enable(auto: &auto_launch::AutoLaunch) -> (r: Result<(), String>) {
    auto.enable().map_err(|err| err.to_string())
}

/// Relies on `auto_launch::AutoLaunch::disable`.
#[verifier::external_body]
fn launch_disable(auto: &auto_launch::AutoLaunch) -> (r: Result<(), String>) {
    auto.disable().map_err(|err| err.to_string())
}

/// Relies on `auto_launch::AutoLaunch::is_enabled`.
#[verifier::external_body]
fn launch_is_enabled(auto: &auto_launch::AutoLaunch) -> (r: Result<bool, String>) {
    auto.is_enabled().map_err(|err| err.to_string())
}

fn entry_for(agent_path: &str) -> (r: Result<auto_launch::AutoLaunch, String>) {
    build_auto_launch(AUTOSTART_APP_NAME, agent_path, AUTOSTART_ARG)
}

/// Registers the agent at `agent_path` to start at login.
pub fn enable(agent_path: &str) -> (r: Result<(), String>) {
    let auto = entry_for(agent_path)?;
    launch_enable(&auto)
}

/// Removes the agent's login entry.
pub fn disable(agent_path: &str) -> (r: Result<(), String>) {
    let auto = entry_for(agent_path)?;
    launch_disable(&auto)
}

/// Whether the agent's login entry is present.
pub fn is_enabled(agent_path: &str) -> (r: Result<bool, String>) {
    let auto = entry_for(agent_path)?;
    launch_is_enabled(&auto)
}

/// Writes the login entry anew for `agent_path`: a failure to remove the old one is
/// ignored, a failure to write the new one is reported.
pub fn refresh(agent_path: &str) -> (r: Result<(), String>) {
    let auto = entry_for(agent_path)?;
    let _ = launch_disable(&auto);
    launch_enable(&auto)
}

} // verus!
