use vstd::prelude::*;
use crate::symbol_finder::{first_present, select_first};
use crate::text::text_views;

verus! {

/// What `str::split_whitespace` yields for a text.
pub uninterp spec fn words_of(s: Seq<char>) -> Seq<Seq<char>>;

/// Relies on str::split_whitespace: the non-empty runs between whitespace,
/// in order.
#[verifier::external_body]
fn split_words(s: &str) -> (r: Vec<String>)
    ensures
        text_views(r@) == words_of(s@),
{
    s.split_whitespace().map(|w| w.to_string()).collect()
}

/// The well-known public symbol servers, used when nothing else is
/// configured.
pub open spec fn default_servers() -> Seq<Seq<char>> {
    seq![
        "https://debuginfod.elfutils.org/"@,
        "https://debuginfod.ubuntu.com/"@,
        "https://debuginfod.fedoraproject.org/"@,
        "https://debuginfod.debian.net/"@,
    ]
}

/// The server list: the configured servers, else the URLs of the
/// environment setting, else the defaults. The first source that yields any
/// server is the whole list.
pub open spec fn server_list(custom: Seq<Seq<char>>, env: Option<Seq<char>>) -> Seq<Seq<char>> {
    if custom.len() > 0 {
        custom
    } else {
        let from_env = match env {
            Some(e) => words_of(e),
            None => Seq::empty(),
        };
        if from_env.len() > 0 {
            from_env
        } else {
            default_servers()
        }
    }
}

/// A text without its trailing slashes.
pub open spec fn trim_slashes(s: Seq<char>) -> Seq<char>
    decreases s.len(),
{
    if s.len() > 0 && s.last() == '/' {
        trim_slashes(s.drop_last())
    } else {
        s
    }
}

/// Where a server keeps the debug information of a build identifier.
pub open spec fn request_url_spec(server: Seq<char>, build_id: Seq<char>) -> Seq<char> {
    trim_slashes(server) + "/buildid/"@ + build_id + "/debuginfo"@
}

pub open spec fn request_urls(servers: Seq<Seq<char>>, build_id: Seq<char>) -> Seq<Seq<char>> {
    servers.map_values(|s: Seq<char>| request_url_spec(s, build_id))
}

/// Builds the request URL of a build identifier on one server.
pub fn request_url(server: &str, build_id: &str) -> (r: String)
    ensures
        r@ == request_url_spec(server@, build_id@),
{
    let mut n = server.unicode_len();
    assert(server@.subrange(0, n as int) =~= server@);
    while n > 0 && server.get_char(n - 1) == '/'
        invariant
            n <= server@.len(),
            trim_slashes(server@.subrange(0, n as int)) == trim_slashes(server@),
        decreases n,
    {
        assert(server@.subrange(0, n as int).drop_last() =~= server@.subrange(0, n - 1));
        n = n - 1;
    }
    assert(trim_slashes(server@.subrange(0, n as int)) == server@.subrange(0, n as int));
    let mut url = String::from_str(server.substring_char(0, n));
    url.append("/buildid/");
    url.append(build_id);
    url.append("/debuginfo");
    url
}

/// What to do next while asking the servers in turn.
#[derive(Debug, Clone, PartialEq, Eq)]
pub enum ProbeStep {
    /// Ask this URL next.
    Ask(String),
    /// A server answered successfully for this URL: stop here.
    Found(String),
    /// Every server was asked and none answered successfully.
    Exhausted,
}

/// A client of debuginfod symbol servers. It decides what to ask and what
/// the answers mean; the requests themselves are made by its caller.
pub struct DebuginfodClient {
    servers: Vec<String>,
}

impl DebuginfodClient {
    pub closed spec fn spec_servers(&self) -> Seq<Seq<char>> {
        text_views(self.servers@)
    }

    /// A client for the configured servers; where none are configured, for
    /// the whitespace-separated URLs of `env_urls` (the environment's
    /// setting, if any), and failing those for the public servers.
    pub fn new(custom_servers: Vec<String>, env_urls: Option<String>) -> (r: DebuginfodClient)
        ensures
            r.spec_servers() == server_list(text_views(custom_servers@), match env_urls {
                Some(e) => Some(e@),
                None => None,
            }),
    {
        if custom_servers.len() > 0 {
            return DebuginfodClient { servers: custom_servers };
        }
        let from_env = match &env_urls {
            Some(e) => split_words(e.as_str()),
            None => {
                let v: Vec<String> = Vec::new();
                assert(text_views(v@) =~= Seq::<Seq<char>>::empty());
                v
            },
        };
        if from_env.len() > 0 {
            return DebuginfodClient { servers: from_env };
        }
        let servers = vec![
            String::from_str("https://debuginfod.elfutils.org/"),
            String::from_str("https://debuginfod.ubuntu.com/"),
            String::from_str("https://debuginfod.fedoraproject.org/"),
            String::from_str("https://debuginfod.debian.net/"),
        ];
        assert(text_views(servers@) =~= default_servers());
        DebuginfodClient { servers }
    }

    /// The servers, in the order they are asked.
    pub fn servers(&self) -> (r: &[String])
        ensures
            text_views(r@) == self.spec_servers(),
    {
        self.servers.as_slice()
    }

    /// The URL to ask of the server at `index`, or `None` once every server
    /// has been asked.
    pub fn probe_url(&self, build_id: &str, index: usize) -> (r: Option<String>)
        ensures
            index < self.spec_servers().len() ==> (r matches Some(u) && u@ == request_url_spec(
                self.spec_servers()[index as int],
                build_id@,
            )),
            index >= self.spec_servers().len() ==> r is None,
    {
        if index < self.servers.len() {
            Some(request_url(self.servers[index].as_str(), build_id))
        } else {
            None
        }
    }

    fn urls(&self, build_id: &str) -> (r: Vec<String>)
        ensures
            text_views(r@) == request_urls(self.spec_servers(), build_id@),
    {
        let mut r: Vec<String> = Vec::new();
        let mut i: usize = 0;
        while i < self.servers.len()
            invariant
                i <= self.servers@.len(),
                r@.len() == i,
                text_views(r@) == request_urls(text_views(self.servers@), build_id@).subrange(0, i as int),
            decreases self.servers.len() - i,
        {
            let ghost before = r@;
            let u = request_url(self.servers[i].as_str(), build_id);
            r.push(u);
            let ghost all = request_urls(text_views(self.servers@), build_id@);
            assert(text_views(self.servers@)[i as int] == self.servers@[i as int]@);
            assert forall|k: int| 0 <= k < i + 1 implies #[trigger] text_views(r@)[k] == all[k] by {
                if k < i {
                    assert(text_views(before)[k] == all.subrange(0, i as int)[k]);
                    assert(r@[k] == before[k]);
                }
            }
            assert(text_views(r@) =~= all.subrange(0, i + 1));
            i = i + 1;
        }
        assert(request_urls(text_views(self.servers@), build_id@).subrange(0, i as int) =~= request_urls(
            text_views(self.servers@),
            build_id@,
        ));
        r
    }

    /// Interprets the servers' answers to an availability probe, given in
    /// server order (`true` for a successful answer): available at the URL
    /// of the first server that answered successfully, else unavailable.
    pub fn check_available(&self, build_id: &str, answers: &Vec<bool>) -> (r: (bool, Option<String>))
        ensures
            match first_present(request_urls(self.spec_servers(), build_id@), answers@) {
                Some(u) => r.0 && (r.1 matches Some(s) && s@ == u),
                None => !r.0 && r.1 is None,
            },
    {
        let urls = self.urls(build_id);
        let found = select_first(&urls, answers);
        match found {
            Some(u) => (true, Some(u)),
            None => (false, None),
        }
    }

    /// The next step, given the answers so far in server order: stop at the
    /// first successful answer, else ask the next server, else give up.
    pub fn next_request(&self, build_id: &str, answers: &Vec<bool>) -> (r: ProbeStep)
        ensures
            match first_present(request_urls(self.spec_servers(), build_id@), answers@) {
                Some(u) => r matches ProbeStep::Found(s) && s@ == u,
                None => if answers@.len() < self.spec_servers().len() {
                    r matches ProbeStep::Ask(s) && s@ == request_url_spec(
                        self.spec_servers()[answers@.len() as int],
                        build_id@,
                    )
                } else {
                    r is Exhausted
                },
            },
    {
        let (available, url) = self.check_available(build_id, answers);
        match (available, url) {
            (true, Some(u)) => ProbeStep::Found(u),
            _ => match self.probe_url(build_id, answers.len()) {
                Some(u) => ProbeStep::Ask(u),
                None => ProbeStep::Exhausted,
            },
        }
    }
}

} // verus!
