//! Command lines for attaching to sessions: the argument vectors handed to
//! the terminal emulators in spawn mode, and the SSH arguments derived
//! from a configured host. The library only builds the argument lists;
//! running them is the surrounding binary's job.

use vstd::prelude::*;

use crate::hosts::{connection_string_spec, HostConfig};
use crate::settings::Settings;
use crate::text::{dec_rep, str_eq, u64_to_string};

verus! {

/// Relies on `shellexpand::tilde`: a path that does not start with a tilde
/// comes back unchanged; a leading tilde is replaced by the caller's home
/// directory, which the environment decides.
#[verifier::external_body]
fn expand_tilde(s: &str) -> (r: String)
    ensures
        s@.len() == 0 || s@[0] != '~' ==> r@ == s@,
{
    shellexpand::tilde(s).into_owned()
}

/// The view of a vector of strings.
pub open spec fn strs(v: Seq<String>) -> Seq<Seq<char>> {
    v.map_values(|x: String| x@)
}

/// The part of an attach command line that reaches the session: over SSH
/// for a remote host, plain for a local one.
pub open spec fn screen_part(session: Seq<char>, host: Option<Seq<char>>) -> Seq<Seq<char>> {
    match host {
        Some(h) => seq!["ssh"@, "-t"@, h, "screen"@, "-r"@, session],
        None => seq!["screen"@, "-r"@, session],
    }
}

/// The same part as one shell command string.
pub open spec fn screen_shell_cmd(session: Seq<char>, host: Option<Seq<char>>) -> Seq<char> {
    match host {
        Some(h) => "ssh -t "@ + h + " screen -r "@ + session,
        None => "screen -r "@ + session,
    }
}

/// The arguments handed to a terminal emulator to attach to a session in a
/// new window, by emulator. Each known emulator gets its native flags; an
/// unknown one is asked to run the command through a shell.
pub open spec fn spawn_args_spec(
    terminal: Seq<char>,
    session: Seq<char>,
    host: Option<Seq<char>>,
) -> Seq<Seq<char>> {
    let title = "sesh: "@ + session;
    if terminal == "alacritty"@ {
        seq!["--title"@, title, "-e"@] + screen_part(session, host)
    } else if terminal == "kitty"@ {
        seq!["--title"@, title] + screen_part(session, host)
    } else if terminal == "wezterm"@ {
        seq!["start"@, "--"@] + screen_part(session, host)
    } else if terminal == "gnome-terminal"@ {
        seq!["--title"@, title, "--"@] + screen_part(session, host)
    } else if terminal == "konsole"@ {
        match host {
            Some(h) => seq!["-e"@, "sh"@, "-c"@, screen_shell_cmd(session, Some(h))],
            None => seq!["-e"@, "screen"@, "-r"@, session],
        }
    } else if terminal == "foot"@ {
        seq!["--title"@, title] + screen_part(session, host)
    } else {
        seq!["-e"@, "sh"@, "-c"@, screen_shell_cmd(session, host)]
    }
}

fn push_screen_part(args: &mut Vec<String>, session: &str, host: Option<&str>)
    ensures
        strs(final(args)@) == strs(old(args)@) + screen_part(
            session@,
            crate::parser::opt_view(host),
        ),
{
    match host {
        Some(h) => {
            args.push("ssh".to_owned());
            args.push("-t".to_owned());
            args.push(h.to_owned());
            args.push("screen".to_owned());
            args.push("-r".to_owned());
            args.push(session.to_owned());
            proof {
                assert(strs(args@) =~= strs(old(args)@) + screen_part(
                    session@,
                    crate::parser::opt_view(host),
                ));
            }
        },
        None => {
            args.push("screen".to_owned());
            args.push("-r".to_owned());
            args.push(session.to_owned());
            proof {
                assert(strs(args@) =~= strs(old(args)@) + screen_part(
                    session@,
                    crate::parser::opt_view(host),
                ));
            }
        },
    }
}

fn screen_shell_cmd_exec(session: &str, host: Option<&str>) -> (r: String)
    ensures
        r@ == screen_shell_cmd(session@, crate::parser::opt_view(host)),
{
    match host {
        Some(h) => {
            proof {
                reveal_strlit("ssh -t ");
                reveal_strlit(" screen -r ");
            }
            let mut r = "ssh -t ".to_owned();
            r.append(h);
            r.append(" screen -r ");
            r.append(session);
            proof {
                assert(r@ =~= "ssh -t "@ + h@ + " screen -r "@ + session@);
            }
            r
        },
        None => {
            proof {
                reveal_strlit("screen -r ");
            }
            let mut r = "screen -r ".to_owned();
            r.append(session);
            r
        },
    }
}

/// Build the argument vector for attaching to a session in a new terminal
/// window; the program to run is the terminal emulator itself.
pub fn attach_spawn_args(terminal: &str, session: &str, host: Option<&str>) -> (args: Vec<String>)
    ensures
        strs(args@) == spawn_args_spec(terminal@, session@, crate::parser::opt_view(host)),
{
    let mut args: Vec<String> = Vec::new();
    proof {
        reveal_strlit("sesh: ");
    }
    let mut title = "sesh: ".to_owned();
    title.append(session);
    if str_eq(terminal, "alacritty") {
        args.push("--title".to_owned());
        args.push(title);
        args.push("-e".to_owned());
        proof {
            assert(strs(args@) =~= seq!["--title"@, "sesh: "@ + session@, "-e"@]);
        }
        push_screen_part(&mut args, session, host);
    } else if str_eq(terminal, "kitty") {
        args.push("--title".to_owned());
        args.push(title);
        proof {
            assert(strs(args@) =~= seq!["--title"@, "sesh: "@ + session@]);
        }
        push_screen_part(&mut args, session, host);
    } else if str_eq(terminal, "wezterm") {
        args.push("start".to_owned());
        args.push("--".to_owned());
        proof {
            assert(strs(args@) =~= seq!["start"@, "--"@]);
        }
        push_screen_part(&mut args, session, host);
    } else if str_eq(terminal, "gnome-terminal") {
        args.push("--title".to_owned());
        args.push(title);
        args.push("--".to_owned());
        proof {
            assert(strs(args@) =~= seq!["--title"@, "sesh: "@ + session@, "--"@]);
        }
        push_screen_part(&mut args, session, host);
    } else if str_eq(terminal, "konsole") {
        args.push("-e".to_owned());
        match host {
            Some(_) => {
                args.push("sh".to_owned());
                args.push("-c".to_owned());
                let cmd = screen_shell_cmd_exec(session, host);
                args.push(cmd);
                proof {
                    assert(strs(args@) =~= spawn_args_spec(
                        terminal@,
                        session@,
                        crate::parser::opt_view(host),
                    ));
                }
            },
            None => {
                args.push("screen".to_owned());
                args.push("-r".to_owned());
                args.push(session.to_owned());
                proof {
                    assert(strs(args@) =~= spawn_args_spec(
                        terminal@,
                        session@,
                        crate::parser::opt_view(host),
                    ));
                }
            },
        }
    } else if str_eq(terminal, "foot") {
        args.push("--title".to_owned());
        args.push(title);
        proof {
            assert(strs(args@) =~= seq!["--title"@, "sesh: "@ + session@]);
        }
        push_screen_part(&mut args, session, host);
    } else {
        args.push("-e".to_owned());
        args.push("sh".to_owned());
        args.push("-c".to_owned());
        let cmd = screen_shell_cmd_exec(session, host);
        args.push(cmd);
        proof {
            assert(strs(args@) =~= spawn_args_spec(
                terminal@,
                session@,
                crate::parser::opt_view(host),
            ));
        }
    }
    args
}

/// The first configured host with the given name.
pub open spec fn host_lookup(hosts: Seq<HostConfig>, name: Seq<char>, i: int) -> Option<HostConfig>
    decreases hosts.len() - i,
{
    if i < 0 || i >= hosts.len() {
        None
    } else if hosts[i].name@ == name {
        Some(hosts[i])
    } else {
        host_lookup(hosts, name, i + 1)
    }
}

/// The SSH options a host's entry implies: its identity file (expanded by
/// the environment) behind `-i`, and its port behind `-p` when it is not
/// the default. This relation leaves the expanded identity text open,
/// because tilde expansion depends on the environment.
pub open spec fn ssh_args_ok(h: HostConfig, args: Seq<Seq<char>>) -> bool {
    let ident: Seq<Seq<char>> = match h.identity_file {
        Some(_) => seq!["-i"@],
        None => Seq::empty(),
    };
    let port_part: Seq<Seq<char>> = match h.port {
        Some(p) => if p != 22 {
            seq!["-p"@, dec_rep(p as nat)]
        } else {
            Seq::empty()
        },
        None => Seq::empty(),
    };
    match h.identity_file {
        Some(f) => {
            &&& args.len() == 2 + port_part.len()
            &&& args[0] == "-i"@
            &&& (f@.len() == 0 || f@[0] != '~' ==> args[1] == f@)
            &&& args.skip(2) == port_part
        },
        None => args == port_part,
    }
}

/// Resolve a configured host into its SSH connection string and options.
/// The host must be configured; an unknown name is the error.
pub fn get_ssh_args(config: &Settings, host_name: &str) -> (r: Result<
    (String, Vec<String>),
    String,
>)
    ensures
        r is Ok <==> host_lookup(config.hosts@, host_name@, 0) is Some,
        r matches Ok((conn, args)) ==> ({
            let h = host_lookup(config.hosts@, host_name@, 0)->Some_0;
            &&& conn@ == connection_string_spec(
                h.hostname@,
                match h.user {
                    Some(u) => Some(u@),
                    None => None,
                },
            )
            &&& ssh_args_ok(h, strs(args@))
        }),
        r matches Err(e) ==> e@ == "Host '"@ + host_name@ + "' not found in configuration"@,
{
    let mut i: usize = 0;
    let n = config.hosts.len();
    while i < n
        invariant
            i <= n,
            n == config.hosts@.len(),
            host_lookup(config.hosts@, host_name@, 0) == host_lookup(
                config.hosts@,
                host_name@,
                i as int,
            ),
        decreases n - i,
    {
        if str_eq(config.hosts[i].name.as_str(), host_name) {
            let h = &config.hosts[i];
            let mut args: Vec<String> = Vec::new();
            match &h.identity_file {
                Some(key) => {
                    args.push("-i".to_owned());
                    let expanded = expand_tilde(key.as_str());
                    args.push(expanded);
                },
                None => {
                },
            }
            match h.port {
                Some(p) => {
                    if p != 22 {
                        args.push("-p".to_owned());
                        args.push(u64_to_string(p as u64));
                    }
                },
                None => {
                },
            }
            let conn = h.connection_string();
            proof {
                assert(ssh_args_ok(config.hosts@[i as int], strs(args@))) by {
                    let hh = config.hosts@[i as int];
                    match hh.identity_file {
                        Some(_) => {
                            assert(strs(args@).skip(2) =~= (match hh.port {
                                Some(p) => if p != 22 {
                                    seq!["-p"@, dec_rep(p as nat)]
                                } else {
                                    Seq::<Seq<char>>::empty()
                                },
                                None => Seq::<Seq<char>>::empty(),
                            }));
                        },
                        None => {
                            assert(strs(args@) =~= (match hh.port {
                                Some(p) => if p != 22 {
                                    seq!["-p"@, dec_rep(p as nat)]
                                } else {
                                    Seq::<Seq<char>>::empty()
                                },
                                None => Seq::<Seq<char>>::empty(),
                            }));
                        },
                    }
                }
            }
            return Ok((conn, args));
        }
        i += 1;
    }
    proof {
        reveal_strlit("Host '");
        reveal_strlit("' not found in configuration");
    }
    let mut msg = "Host '".to_owned();
    msg.append(host_name);
    msg.append("' not found in configuration");
    proof {
        assert(msg@ =~= "Host '"@ + host_name@ + "' not found in configuration"@);
    }
    Err(msg)
}

} // verus!
