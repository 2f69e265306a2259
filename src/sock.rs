use vstd::prelude::*;
use vstd::string::*;

verus! {

/// Which of the compositor's two sockets a connection is for.
#[derive(Clone, Copy, PartialEq, Eq, Debug)]
pub enum SocketTypes {
    /// The broadcast socket that carries the event stream.
    Listener,
    /// The request/response socket that takes commands.
    Controller,
}

/// File name of the socket of the given kind inside the instance directory.
pub open spec fn socket_file_name(kind: SocketTypes) -> Seq<char> {
    match kind {
        SocketTypes::Listener => seq!['.', 's', 'o', 'c', 'k', 'e', 't', '2', '.', 's', 'o', 'c', 'k'],
        SocketTypes::Controller => seq!['.', 's', 'o', 'c', 'k', 'e', 't', '.', 's', 'o', 'c', 'k'],
    }
}

/// `{runtime dir}/hypr/{instance}/{socket file}`.
pub open spec fn socket_path_text(dir: Seq<char>, instance: Seq<char>, kind: SocketTypes) -> Seq<char> {
    dir + "/hypr/"@ + instance + "/"@ + socket_file_name(kind)
}

/// The path of an instance's socket of the given kind.
pub fn socket_path(xdg_runtime_dir: &str, hypr_instance_signature: &str, kind: SocketTypes) -> (r: String)
    ensures
        r@ == socket_path_text(xdg_runtime_dir@, hypr_instance_signature@, kind),
{
    let mut s = String::from_str(xdg_runtime_dir);
    s.append("/hypr/");
    s.append(hypr_instance_signature);
    s.append("/");
    match kind {
        SocketTypes::Listener => s.append(".socket2.sock"),
        SocketTypes::Controller => s.append(".socket.sock"),
    }
    proof {
        reveal_strlit(".socket2.sock");
        reveal_strlit(".socket.sock");
    }
    assert(s@ =~= socket_path_text(xdg_runtime_dir@, hypr_instance_signature@, kind));
    s
}

} // verus!
