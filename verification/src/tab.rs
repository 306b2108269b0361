//! Decisions of the modeler tab: when to recompile the project, what a
//! compilation outcome changes, and the tab's title.
use vstd::prelude::*;
use crate::sdf_ast::SsaaLevel;

verus! {

/// What started a compilation.
#[derive(Clone, Copy, Debug, PartialEq, Eq, Structural)]
pub enum CompileTrigger {
    /// A project folder was just opened.
    OpenProject,
    /// The user pressed "Compile & Run".
    Run,
    /// The supersampling setting changed since the last compilation.
    SettingsChanged,
}

/// Severity of a notification shown to the user.
#[derive(Clone, Copy, Debug, PartialEq, Eq, Structural)]
pub enum NoticeLevel {
    Success,
    Warning,
}

/// A notification shown to the user.
pub struct Notice {
    pub message: String,
    pub level: NoticeLevel,
}

/// What the tab must do after a compilation besides updating its state.
pub struct CompileEffects {
    /// Drop the GPU resources so that they are rebuilt from the new shader.
    pub reset_resources: bool,
    /// Notification to show, if any.
    pub notice: Option<Notice>,
}

/// The compilation state of a modeler tab.
#[derive(Clone)]
pub struct TabState {
    /// Shader source in use; empty before the first successful compilation.
    pub current_shader: String,
    /// Message of the last failed compilation that is still shown.
    pub compiler_error: Option<String>,
    /// Supersampling level of the last compilation that got past evaluation.
    pub last_applied_ssaa: SsaaLevel,
}

/// Message of the notification after a compilation, if there is one.
pub open spec fn notice_message(trigger: CompileTrigger, ok: bool) -> Option<Seq<char>> {
    match (trigger, ok) {
        (CompileTrigger::OpenProject, true) => Some("Project opened & compiled"@),
        (CompileTrigger::OpenProject, false) => Some("Project opened but compilation failed"@),
        (CompileTrigger::Run, true) => Some("Project compiled"@),
        _ => None,
    }
}

/// The title of a tab whose project folder is named `project_name`.
pub open spec fn title_text(project_name: Option<Seq<char>>) -> Seq<char> {
    match project_name {
        Some(name) => "SDF: "@ + name,
        None => "SDF Modeler"@,
    }
}

impl TabState {
    /// A fresh tab state: no shader, no error, and `ssaa` as applied level.
    pub fn new(ssaa: SsaaLevel) -> (r: TabState)
        ensures
            r.current_shader@ == Seq::<char>::empty(),
            r.compiler_error is None,
            r.last_applied_ssaa == ssaa,
    {
        TabState { current_shader: String::new(), compiler_error: None, last_applied_ssaa: ssaa }
    }

    /// A compilation is due when the supersampling setting differs from the
    /// level last applied and a project is open.
    pub fn needs_recompile(&self, current_ssaa: SsaaLevel, has_project: bool) -> (r: bool)
        ensures
            r == (current_ssaa != self.last_applied_ssaa && has_project),
    {
        current_ssaa != self.last_applied_ssaa && has_project
    }

    /// Records the outcome of a compilation started by `trigger`: `Ok` holds
    /// the new shader source and the supersampling level it was built for,
    /// `Err` the error message.
    pub fn apply_compile(
        &mut self,
        trigger: CompileTrigger,
        outcome: Result<(String, SsaaLevel), String>,
    ) -> (r: CompileEffects)
        ensures
            match outcome {
                Ok((shader, level)) => {
                    &&& final(self).current_shader == shader
                    &&& final(self).last_applied_ssaa == level
                    &&& final(self).compiler_error == (if trigger == CompileTrigger::SettingsChanged {
                        old(self).compiler_error
                    } else {
                        None
                    })
                    &&& r.reset_resources
                },
                Err(e) => {
                    &&& final(self).current_shader == old(self).current_shader
                    &&& final(self).last_applied_ssaa == old(self).last_applied_ssaa
                    &&& final(self).compiler_error == (if trigger == CompileTrigger::SettingsChanged {
                        old(self).compiler_error
                    } else {
                        Some(e)
                    })
                    &&& !r.reset_resources
                },
            },
            match notice_message(trigger, outcome is Ok) {
                Some(m) => r.notice matches Some(n) && n.message@ == m && n.level == (if outcome is Ok {
                    NoticeLevel::Success
                } else {
                    NoticeLevel::Warning
                }),
                None => r.notice is None,
            },
    {
        match outcome {
            Ok((shader, level)) => {
                self.current_shader = shader;
                self.last_applied_ssaa = level;
                let notice = match trigger {
                    CompileTrigger::OpenProject => {
                        self.compiler_error = None;
                        Some(
                            Notice {
                                message: String::from_str("Project opened & compiled"),
                                level: NoticeLevel::Success,
                            },
                        )
                    },
                    CompileTrigger::Run => {
                        self.compiler_error = None;
                        Some(
                            Notice {
                                message: String::from_str("Project compiled"),
                                level: NoticeLevel::Success,
                            },
                        )
                    },
                    CompileTrigger::SettingsChanged => None,
                };
                CompileEffects { reset_resources: true, notice }
            },
            Err(e) => {
                let notice = match trigger {
                    CompileTrigger::OpenProject => {
                        self.compiler_error = Some(e);
                        Some(
                            Notice {
                                message: String::from_str("Project opened but compilation failed"),
                                level: NoticeLevel::Warning,
                            },
                        )
                    },
                    CompileTrigger::Run => {
                        self.compiler_error = Some(e);
                        None
                    },
                    CompileTrigger::SettingsChanged => None,
                };
                CompileEffects { reset_resources: false, notice }
            },
        }
    }
}

/// The tab's title: `SDF: <name>` for an open project folder, `SDF Modeler`
/// otherwise.
pub fn tab_title(project_name: Option<&str>) -> (r: String)
    ensures
        r@ == title_text(
            match project_name {
                Some(n) => Some(n@),
                None => None,
            },
        ),
{
    match project_name {
        Some(name) => {
            let mut s = String::from_str("SDF: ");
            s.append(name);
            s
        },
        None => String::from_str("SDF Modeler"),
    }
}

} // verus!
