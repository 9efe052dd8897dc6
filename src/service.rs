use vstd::prelude::*;
use crate::locks::PathLocks;
use crate::paths::{resolve_in_root, resolve_spec, opt_view, sandbox_target, target_spec};
use crate::status::{Code, Status};
use crate::upload::UploadSession;

verus! {

/// The daemon's file service: a sandbox root and the registry of paths with
/// an upload in flight, shared by all calls to this service and by no other.
pub struct MyFileService {
    base_path: String,
    active_uploads: PathLocks,
}

/// The answer to an upload call that reached the end of its stream.
#[derive(Debug)]
pub struct UploadResult {
    pub success: bool,
    pub message: String,
}

impl MyFileService {
    /// A service rooted at `base_path`, with no path locked.
    pub fn new(base_path: String) -> (r: MyFileService)
        ensures
            r.root()@ == base_path@,
    {
        MyFileService { base_path, active_uploads: PathLocks::new() }
    }

    pub closed spec fn root(&self) -> String {
        self.base_path
    }

    pub fn base_path(&self) -> (r: &String)
        ensures
            r@ == self.root()@,
    {
        &self.base_path
    }

    /// The lock registry of this service's uploads.
    pub fn locks(&self) -> (r: &PathLocks) {
        &self.active_uploads
    }

    /// A new upload call, sandboxed under this service's root.
    pub fn start_upload(&self) -> (r: UploadSession)
        ensures
            r.root@ == self.root()@,
            r.state is AwaitingFirstChunk,
    {
        UploadSession::new(self.base_path.clone())
    }

    /// The path that a listing request names; the caller canonicalizes it
    /// (and the root) and hands both to [`MyFileService::resolve_listing`].
    pub fn listing_target(&self, requested: &str) -> (r: String)
        ensures
            r@ == target_spec(self.root()@, requested@),
    {
        sandbox_target(self.base_path.as_str(), requested)
    }

    /// Decides a listing request from the canonical root and the canonical
    /// form of its target: the directory to read, or `Internal`, `NotFound`
    /// or `PermissionDenied`.
    pub fn resolve_listing(&self, canonical_root: Option<&str>, canonical_path: Option<&str>) -> (r:
        Result<String, Status>)
        ensures
            match resolve_spec(opt_view(canonical_root), opt_view(canonical_path)) {
                Ok(p) => r is Ok && r->Ok_0@ == p,
                Err(c) => r is Err && r->Err_0.code == c,
            },
    {
        resolve_in_root(canonical_root, canonical_path)
    }
}

/// The client's connection: the endpoint it is connected to, if any.
pub struct ClientState {
    endpoint: Option<String>,
}

/// The URL that a connection goes to: `url` itself where it names the
/// `http://` or `https://` scheme, else `url` under `http://`.
pub open spec fn server_url_spec(url: Seq<char>) -> Seq<char> {
    if crate::paths::prefix_of("http://"@, url) || crate::paths::prefix_of("https://"@, url) {
        url
    } else {
        "http://"@ + url
    }
}

/// The URL that a connection to `url` goes to.
pub fn server_url(url: &str) -> (r: String)
    ensures
        r@ == server_url_spec(url@),
{
    if crate::paths::starts_with(url, "http://") || crate::paths::starts_with(url, "https://") {
        String::from_str(url)
    } else {
        let mut r = String::from_str("http://");
        r.append(url);
        r
    }
}

impl ClientState {
    /// A client with no connection.
    pub fn new() -> (r: ClientState)
        ensures
            r.connected() is None,
    {
        ClientState { endpoint: None }
    }

    pub closed spec fn connected(&self) -> Option<Seq<char>> {
        match self.endpoint {
            Some(e) => Some(e@),
            None => None,
        }
    }

    /// Records that a connection to `url` was established.
    pub fn set_connected(&mut self, url: String)
        ensures
            final(self).connected() == Some(url@),
    {
        self.endpoint = Some(url);
    }

    /// Takes the outcome of a connection attempt to `url`: on success the
    /// client is connected there and the answer names the URL; on failure it
    /// keeps its previous connection and the error is `Connection`, with the
    /// transport's reason.
    pub fn record_connection(&mut self, url: String, outcome: Result<(), String>) -> (r: Result<
        String,
        Status,
    >)
        ensures
            outcome is Ok ==> final(self).connected() == Some(url@) && r is Ok && r->Ok_0@ == "连接成功: "@
                + url@,
            outcome is Err ==> final(self).connected() == old(self).connected() && r is Err
                && r->Err_0.code == Code::Connection && r->Err_0.message@ == "连接失败: "@ + outcome->Err_0@,
    {
        match outcome {
            Ok(()) => {
                let mut r = String::from_str("连接成功: ");
                r.append(url.as_str());
                self.endpoint = Some(url);
                Ok(r)
            },
            Err(e) => {
                let mut m = String::from_str("连接失败: ");
                m.append(e.as_str());
                Err(Status::new(Code::Connection, m))
            },
        }
    }

    /// The endpoint that calls go to, or `Unavailable` when not connected.
    pub fn get_client(&self) -> (r: Result<String, Status>)
        ensures
            match self.connected() {
                Some(e) => r is Ok && r->Ok_0@ == e,
                None => r is Err && r->Err_0.code == Code::Unavailable && r->Err_0.message@
                    == "Not connected to server."@,
            },
    {
        match &self.endpoint {
            Some(e) => Ok(e.clone()),
            None => Err(Status::new(Code::Unavailable, String::from_str("Not connected to server."))),
        }
    }
}

} // verus!
