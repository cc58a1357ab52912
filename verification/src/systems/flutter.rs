use vstd::prelude::*;
use crate::command::{Action, ActionV, Cmd, Event, Project, cmd_v};
use crate::options::{BuildOptions, verb_of};
use crate::systems::{actions_v, Detection, DetectionV};
 use crate::text::{contains_seq, contains_chars, chars_of};

verus! {

/// Flutter apps.
#[derive(Debug, Clone, Copy)]
pub struct FlutterBuild;

/// `flutter <verb>`, with `--release` in release mode unless testing.
pub open spec fn flutter_plan(o: BuildOptions) -> Seq<ActionV> {
    seq![
        ActionV::Run(
            cmd_v(
                "flutter"@,
                if o.release && !o.test {
                    seq![verb_of(o), "--release"@]
                } else {
                    seq![verb_of(o)]
                },
            ),
        ),
    ]
}

impl FlutterBuild {
    pub fn name(&self) -> (r: &'static str)
        ensures
            r@ == "Flutter"@,
    {
        "Flutter"
    }

    pub fn description(&self) -> (r: &'static str)
        ensures
            r@ == "Build and run Flutter apps"@,
    {
        "Build and run Flutter apps"
    }

    /// A `pubspec.yaml` is needed; then its text decides.
    pub fn detect(&self, p: &Project) -> (r: Detection)
        ensures
            r@ == if p@.present.contains("pubspec.yaml"@) {
                DetectionV::ReadFile("pubspec.yaml"@)
            } else {
                DetectionV::Known(false)
            },
    {
        if p.has("pubspec.yaml") {
            Detection::ReadFile("pubspec.yaml".to_owned())
        } else {
            Detection::Known(false)
        }
    }

    /// A pubspec that mentions `flutter:` marks a Flutter app; an unreadable
    /// one does not.
    pub fn confirm(&self, ev: &Event) -> (r: bool)
        ensures
            r == match ev {
                Event::File(Some(text)) => contains_seq(text@, "flutter:"@),
                _ => false,
            },
    {
        match ev {
            Event::File(Some(text)) => {
                let t = chars_of(text.as_str());
                let needle = chars_of("flutter:");
                contains_chars(&t, &needle)
            },
            _ => false,
        }
    }

    /// The commands for `o`.
    pub fn plan(&self, o: &BuildOptions) -> (r: Vec<Action>)
        ensures
            actions_v(r@) == flutter_plan(*o),
    {
        let verb = o.verb();
        let c = if o.release && !o.test {
            Cmd::new2("flutter", verb, "--release")
        } else {
            Cmd::new1("flutter", verb)
        };
        let r = vec![Action::Run(c)];
        assert(actions_v(r@) == flutter_plan(*o));
        r
    }
}

} // verus!
