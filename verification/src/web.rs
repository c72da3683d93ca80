//! What the control-plane layer leans on: its error type, file-name safety,
//! path building, and the pure planning behind taking control of a device —
//! which sockets it gets, which commands the multiplexer receives, and the
//! command line that launches the mirroring daemon on the device.
use vstd::prelude::*;

use crate::controller::ControllerCommand;
use crate::registry::{ControlledDevice, ScrcpyDevice};

verus! {

/// An error the control plane answers with: a status code and a message.
#[derive(Clone, Debug)]
pub struct WebServerError(pub u16, pub String);

impl WebServerError {
    /// A server-side failure.
    pub fn internal_error(message: String) -> (r: WebServerError)
        ensures
            r.0 == 500,
            r.1 == message,
    {
        WebServerError(500, message)
    }

    /// A request the caller got wrong.
    pub fn bad_request(message: String) -> (r: WebServerError)
        ensures
            r.0 == 400,
            r.1 == message,
    {
        WebServerError(400, message)
    }

    /// The status code.
    pub fn code(&self) -> (r: u16)
        ensures
            r == self.0,
    {
        self.0
    }
}

/// The characters a stored file name may never hold.
pub open spec fn spec_illegal_file_char(c: char) -> bool {
    c == '<' || c == '>' || c == ':' || c == '"' || c == '/' || c == '\\' || c == '|' || c == '?'
        || c == '*' || c == '\u{0}'
}

/// Whether a name is safe to use as a stored file name: it never climbs out
/// of its directory (no two consecutive dots anywhere), holds no path
/// separator or other illegal character, and actually names a file (it is
/// neither empty nor a bare dot).
pub open spec fn spec_is_safe_file_name(s: Seq<char>) -> bool {
    &&& (forall|i: int| 0 <= i < s.len() ==> !spec_illegal_file_char(#[trigger] s[i]))
    &&& (forall|i: int| 0 <= i < s.len() - 1 ==> !(#[trigger] s[i] == '.' && s[i + 1] == '.'))
    &&& s.len() > 0
    &&& s != "."@
}

/// Exec mirror of [`spec_is_safe_file_name`].
pub fn is_safe_file_name(name: &str) -> (r: bool)
    ensures
        r == spec_is_safe_file_name(name@),
{
    let n: usize = name.unicode_len();
    if n == 0 {
        return false;
    }
    if n == 1 && name.get_char(0) == '.' {
        proof {
            reveal_strlit(".");
            assert(name@ =~= "."@);
        }
        return false;
    }
    let mut i: usize = 0;
    while i < n
        invariant
            i <= n == name@.len(),
            forall|k: int| 0 <= k < i ==> !spec_illegal_file_char(#[trigger] name@[k]),
            forall|k: int| 0 <= k < i - 1 ==> !(#[trigger] name@[k] == '.' && name@[k + 1] == '.'),
        decreases n - i,
    {
        let c = name.get_char(i);
        if c == '<' || c == '>' || c == ':' || c == '"' || c == '/' || c == '\\' || c == '|' || c
            == '?' || c == '*' || c == '\u{0}' {
            return false;
        }
        if i > 0 && c == '.' && name.get_char(i - 1) == '.' {
            return false;
        }
        i = i + 1;
    }
    proof {
        reveal_strlit(".");
        if name@ == "."@ {
            assert(name@.len() == 1);
            assert(false);
        }
    }
    true
}

/// Joins path segments onto a root with the path separator, left to right.
pub open spec fn spec_path_join(acc: Seq<char>, segments: Seq<String>) -> Seq<char>
    decreases segments.len(),
{
    if segments.len() == 0 {
        acc
    } else {
        spec_path_join(acc + "/"@ + segments[0]@, segments.skip(1))
    }
}

/// The path of a file under the application's root directory: the root with
/// every segment appended behind a separator. The root itself comes from the
/// environment; the caller resolves and passes it.
pub fn relate_to_root_path(root: &str, segments: &Vec<String>) -> (r: String)
    ensures
        r@ == spec_path_join(root@, segments@),
{
    let mut acc: String = root.to_owned();
    let n: usize = segments.len();
    let mut i: usize = 0;
    proof {
        assert(segments@.skip(0) =~= segments@);
    }
    while i < n
        invariant
            i <= n == segments@.len(),
            spec_path_join(acc@, segments@.skip(i as int)) == spec_path_join(root@, segments@),
        decreases n - i,
    {
        proof {
            assert(segments@.skip(i as int).skip(1) =~= segments@.skip(i as int + 1));
            assert(segments@.skip(i as int)[0] == segments@[i as int]);
        }
        acc.append("/");
        acc.append(segments[i].as_str());
        i = i + 1;
    }
    proof {
        assert(segments@.skip(n as int) =~= Seq::<String>::empty());
    }
    acc
}

/// The plan for taking control of a device: the socket roles it will be
/// served on and the connect commands for the multiplexer, in the order the
/// sockets must be accepted. The first controlled device is the main one and
/// gets video and audio sockets as asked; later devices get one auxiliary
/// control socket.
pub fn plan_control_device(scid: &String, main: bool, video: bool, audio: bool) -> (r: (
    Vec<String>,
    Vec<ControllerCommand>,
))
    ensures
        main && video && audio ==> r.0@.len() == 3 && r.1@.len() == 3,
        main && video && !audio ==> r.0@.len() == 2 && r.1@.len() == 2,
        main && !video && audio ==> r.0@.len() == 2 && r.1@.len() == 2,
        main && !video && !audio ==> r.0@.len() == 1 && r.1@.len() == 1,
        !main ==> r.0@.len() == 1 && r.1@.len() == 1,
        main ==> (r.0@[r.0@.len() - 1]@ == "main_control"@ && (r.1@[r.1@.len() - 1]
            matches ControllerCommand::ConnectMainControl(s) && s@ == scid@)),
        main && video ==> (r.0@[0]@ == "main_video"@ && (r.1@[0]
            matches ControllerCommand::ConnectMainVideo(s) && s@ == scid@)),
        main && audio ==> (r.0@[r.0@.len() - 2]@ == "main_audio"@ && (r.1@[r.1@.len() - 2]
            matches ControllerCommand::ConnectMainAudio(s) && s@ == scid@)),
        !main ==> (r.0@[0]@ == "sub_control_"@ + scid@ && (r.1@[0]
            matches ControllerCommand::ConnectSubControl(s) && s@ == scid@)),
{
    let mut socket_ids: Vec<String> = Vec::new();
    let mut commands: Vec<ControllerCommand> = Vec::new();
    if main {
        if video {
            socket_ids.push("main_video".to_owned());
            commands.push(ControllerCommand::ConnectMainVideo(scid.clone()));
        }
        if audio {
            socket_ids.push("main_audio".to_owned());
            commands.push(ControllerCommand::ConnectMainAudio(scid.clone()));
        }
        socket_ids.push("main_control".to_owned());
        commands.push(ControllerCommand::ConnectMainControl(scid.clone()));
    } else {
        let mut sub: String = "sub_control_".to_owned();
        sub.append(scid.as_str());
        socket_ids.push(sub);
        commands.push(ControllerCommand::ConnectSubControl(scid.clone()));
    }
    (socket_ids, commands)
}

/// The shell command that launches the mirroring daemon on the device: the
/// server class path, the process entry point, and the session and stream
/// arguments.
pub fn start_scrcpy_server(scid: &String, version: &str, video: bool, audio: bool) -> (r: Vec<
    String,
>)
    ensures
        r@.len() == 8,
        r@[0]@ == "CLASSPATH=/data/local/tmp/scrcpy-server.jar"@,
        r@[1]@ == "app_process"@,
        r@[2]@ == "/"@,
        r@[3]@ == "com.genymobile.scrcpy.Server"@,
        r@[4]@ == version@,
        r@[5]@ == "scid="@ + scid@,
        r@[6]@ == (if video {
            "video=true"@
        } else {
            "video=false"@
        }),
        r@[7]@ == (if audio {
            "audio=true"@
        } else {
            "audio=false"@
        }),
{
    let mut args: Vec<String> = Vec::new();
    args.push("CLASSPATH=/data/local/tmp/scrcpy-server.jar".to_owned());
    args.push("app_process".to_owned());
    args.push("/".to_owned());
    args.push("com.genymobile.scrcpy.Server".to_owned());
    args.push(version.to_owned());
    let mut scid_arg: String = "scid=".to_owned();
    scid_arg.append(scid.as_str());
    args.push(scid_arg);
    args.push(
        if video {
            "video=true".to_owned()
        } else {
            "video=false".to_owned()
        },
    );
    args.push(
        if audio {
            "audio=true".to_owned()
        } else {
            "audio=false".to_owned()
        },
    );
    args
}

/// The shutdown command that releases a device, found by its device id: the
/// main device tears down all its sessions, an auxiliary one only its
/// control session. An id under no control yields nothing — the caller
/// reports "not found".
pub fn plan_decontrol_device(registry: &ControlledDevice, device_id: &String) -> (r: Option<
    ControllerCommand,
>)
    ensures
        !registry.spec_is_device_controlled(device_id@) ==> r is None,
        registry.spec_is_device_controlled(device_id@) ==> exists|j: int|
            {
                &&& 0 <= j < registry.devices@.len()
                &&& (#[trigger] registry.devices@[j]).device_id@ == device_id@
                &&& (forall|k: int|
                    0 <= k < j ==> registry.devices@[k].device_id@ != device_id@)
                &&& r matches Some(cmd) && (if registry.devices@[j].main {
                    cmd matches ControllerCommand::ShutdownMain(s) && s@
                        == registry.devices@[j].scid@
                } else {
                    cmd matches ControllerCommand::ShutdownSub(s) && s@
                        == registry.devices@[j].scid@
                })
            },
{
    let devices: &Vec<ScrcpyDevice> = registry.get_device_list();
    let n: usize = devices.len();
    let mut i: usize = 0;
    while i < n
        invariant
            i <= n == registry.devices@.len(),
            devices == registry.devices,
            forall|k: int| 0 <= k < i ==> (#[trigger] registry.devices@[k]).device_id@ != device_id@,
        decreases n - i,
    {
        if devices[i].device_id.eq(device_id) {
            let scid = devices[i].scid.clone();
            let cmd = if devices[i].main {
                ControllerCommand::ShutdownMain(scid)
            } else {
                ControllerCommand::ShutdownSub(scid)
            };
            proof {
                assert(registry.devices@[i as int].device_id@ == device_id@);
            }
            return Some(cmd);
        }
        i = i + 1;
    }
    None
}

} // verus!
