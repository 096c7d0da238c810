//! Preparing a resolved path for launch: the per-platform program and
//! argument list, the pre-spawn existence check, and the confirmation
//! message. The spawn itself is the caller's; everything decided before it
//! is verified here.

use vstd::prelude::*;
use vstd::string::*;
use crate::args::{parse_arguments, tokenize_spec};
use crate::chars::push_char;
use crate::data::{App, OperatingSystem};
use crate::errors::ResolveError;
use crate::fsops::check_app_exists;

verus! {

/// What is about to be spawned: the program image, its arguments in order,
/// and the confirmation message to report once the spawn succeeds.
#[derive(Clone, Debug)]
pub struct LaunchCommand {
    pub program: String,
    pub args: Vec<String>,
    pub message: String,
}

/// The descriptor's parameter text, empty when it has none.
pub open spec fn params_of(app: &App) -> Seq<char> {
    match app.params {
        Some(p) => p@,
        None => Seq::<char>::empty(),
    }
}

/// Argument strings joined with single spaces.
pub open spec fn join_spaces(args: Seq<Seq<char>>) -> Seq<char>
    decreases args.len(),
{
    if args.len() == 0 {
        Seq::<char>::empty()
    } else if args.len() == 1 {
        args[0]
    } else {
        join_spaces(args.drop_last()) + seq![' '] + args.last()
    }
}

/// The confirmation message reported for a successful spawn.
pub open spec fn success_message_spec(
    app_name: Seq<char>,
    path: Seq<char>,
    joined_args: Seq<char>,
) -> Seq<char> {
    "Successfully opened '"@ + app_name + "' from '"@ + path + "' with params '"@ + joined_args
        + "'"@
}

/// Join argument strings with single spaces, matching `join_spaces`.
pub fn join_with_spaces(args: &Vec<String>) -> (r: String)
    ensures
        r@ == join_spaces(args.deep_view()),
{
    let mut r = String::new();
    let mut i: usize = 0;
    while i < args.len()
        invariant
            i <= args@.len(),
            r@ == join_spaces(args.deep_view().subrange(0, i as int)),
        decreases args@.len() - i,
    {
        let ghost pre = args.deep_view().subrange(0, i as int);
        let ghost post = args.deep_view().subrange(0, i + 1 as int);
        proof {
            assert(post.drop_last() =~= pre);
            assert(post.last() == args.deep_view()[i as int]);
        }
        if i > 0 {
            push_char(&mut r, ' ');
        }
        r.append(args[i].as_str());
        proof {
            if i == 0 {
                assert(r@ =~= join_spaces(post));
            }
        }
        i = i + 1;
    }
    proof {
        assert(args.deep_view().subrange(0, args.deep_view().len() as int) =~= args.deep_view());
    }
    r
}

/// Decide the launch from already-made existence knowledge: the pure core
/// of `prepare_launch`. A missing path is `PathMissingAtLaunch`; Windows
/// executes the path directly with the tokenized parameters; macOS hands
/// the path to the `open` helper before the parameters, because a bundle
/// cannot be executed directly; any other platform is unsupported.
pub fn plan_launch(app: &App, app_path: &str, app_present: bool) -> (r: Result<
    LaunchCommand,
    ResolveError,
>)
    ensures
        !app_present ==> (r matches Err(e) && e matches ResolveError::PathMissingAtLaunch {
            app_name,
            path,
        } && app_name@ == app.app_name@ && path@ == app_path@),
        app_present && app.operating_system == OperatingSystem::Windows ==> (r matches Ok(c)
            && c.program@ == app_path@ && c.args.deep_view() == tokenize_spec(params_of(app))
            && c.message@ == success_message_spec(
            app.app_name@,
            app_path@,
            join_spaces(c.args.deep_view()),
        )),
        app_present && app.operating_system == OperatingSystem::MacOS ==> (r matches Ok(c)
            && c.program@ == "open"@ && c.args.deep_view() == seq![app_path@] + tokenize_spec(
            params_of(app),
        ) && c.message@ == success_message_spec(
            app.app_name@,
            app_path@,
            join_spaces(c.args.deep_view()),
        )),
        app_present && app.operating_system == OperatingSystem::Unknown ==> (r matches Err(e)
            && e matches ResolveError::UnsupportedPlatform { os_name } && os_name@
            == app.operating_system.name_spec()),
{
    if !app_present {
        return Err(
            ResolveError::PathMissingAtLaunch {
                app_name: app.app_name.clone(),
                path: app_path.to_owned(),
            },
        );
    }
    let parsed: Vec<String> = match &app.params {
        Some(p) => parse_arguments(p.as_str()),
        None => parse_arguments(""),
    };
    proof {
        if app.params is None {
            reveal_strlit("");
            assert(""@ =~= Seq::<char>::empty());
        }
    }
    let (program, args): (String, Vec<String>) = match app.operating_system {
        OperatingSystem::Windows => (app_path.to_owned(), parsed),
        OperatingSystem::MacOS => {
            let mut args: Vec<String> = Vec::new();
            args.push(app_path.to_owned());
            let mut rest = parsed;
            let ghost rest_view = rest.deep_view();
            args.append(&mut rest);
            proof {
                assert(args.deep_view() =~= seq![app_path@] + rest_view);
            }
            ("open".to_owned(), args)
        },
        OperatingSystem::Unknown => {
            return Err(
                ResolveError::UnsupportedPlatform { os_name: app.operating_system.name() },
            );
        },
    };
    let joined = join_with_spaces(&args);
    let mut message = "Successfully opened '".to_owned();
    message.append(app.app_name.as_str());
    message.append("' from '");
    message.append(app_path);
    message.append("' with params '");
    message.append(joined.as_str());
    message.append("'");
    proof {
        assert(message@ =~= success_message_spec(
            app.app_name@,
            app_path@,
            join_spaces(args.deep_view()),
        ));
    }
    Ok(LaunchCommand { program, args, message })
}

/// Prepare the launch of a resolved path: re-verify the path exists right
/// now — a stale cached path must not be spawned — then decide the
/// platform's invocation as `plan_launch` does.
pub fn prepare_launch(app: &App, app_path: &str) -> (r: Result<LaunchCommand, ResolveError>)
    ensures
        app.operating_system == OperatingSystem::Unknown ==> r is Err,
        r matches Ok(c) ==> (app.operating_system == OperatingSystem::Windows ==> c.program@
            == app_path@ && c.args.deep_view() == tokenize_spec(params_of(app))) && (
        app.operating_system == OperatingSystem::MacOS ==> c.program@ == "open"@
            && c.args.deep_view() == seq![app_path@] + tokenize_spec(params_of(app))) && c.message@
            == success_message_spec(
            app.app_name@,
            app_path@,
            join_spaces(c.args.deep_view()),
        ),
        r matches Err(e) ==> ((e matches ResolveError::PathMissingAtLaunch { app_name, path }
            && app_name@ == app.app_name@ && path@ == app_path@) || (e matches
        ResolveError::UnsupportedPlatform { os_name } && app.operating_system
            == OperatingSystem::Unknown && os_name@ == app.operating_system.name_spec())),
{
    let present = check_app_exists(app.operating_system, app_path);
    plan_launch(app, app_path, present)
}

} // verus!
