//! Configuration of an [`OddOnkey`](crate::session::oddonkey::OddOnkey) handle.

use vstd::prelude::*;
use crate::adapters::docker::manager::{
    DockerManager, DockerView, DEFAULT_HOST_PORT, default_container_name, default_image,
};
use crate::text::{chars_of, string_from_chars};

verus! {

/// `s` with every trailing `c` removed, as `str::trim_end_matches(c)` gives it.
pub open spec fn trim_end_char(s: Seq<char>, c: char) -> Seq<char>
    decreases s.len(),
{
    if s.len() > 0 && s.last() == c {
        trim_end_char(s.drop_last(), c)
    } else {
        s
    }
}

/// `s.trim_end_matches(c)`.
pub fn trim_end_matches_char(s: &str, c: char) -> (r: String)
    ensures
        r@ == trim_end_char(s@, c),
{
    let v = chars_of(s);
    let mut j: usize = v.len();
    assert(v@.take(j as int) =~= v@);
    while j > 0 && v[j - 1] == c
        invariant
            v@ == s@,
            j <= v@.len(),
            trim_end_char(s@, c) == trim_end_char(v@.take(j as int), c),
        decreases j,
    {
        assert(v@.take(j as int).drop_last() =~= v@.take(j - 1));
        j = j - 1;
    }
    let mut kept: Vec<char> = Vec::new();
    let mut i: usize = 0;
    while i < j
        invariant
            j <= v@.len(),
            i <= j,
            kept@ == v@.take(i as int),
        decreases j - i,
    {
        kept.push(v[i]);
        assert(v@.take(i as int).push(v@[i as int]) =~= v@.take(i + 1));
        i = i + 1;
    }
    string_from_chars(kept.as_slice())
}

/// The Ollama server URL a builder starts with.
pub open spec fn default_base_url() -> Seq<char> {
    "http://127.0.0.1:11434"@
}

/// The abstract settings of a builder.
pub struct BuilderView {
    pub model_name: Seq<char>,
    pub base_url: Seq<char>,
    pub progress: bool,
    pub report: bool,
    pub docker: bool,
    pub docker_gpu: bool,
    pub docker_port: Option<u16>,
    pub docker_cleanup: bool,
}

/// The settings a fresh builder for `model_name` holds.
pub open spec fn initial_builder(model_name: Seq<char>) -> BuilderView {
    BuilderView {
        model_name,
        base_url: default_base_url(),
        progress: false,
        report: false,
        docker: false,
        docker_gpu: false,
        docker_port: None,
        docker_cleanup: false,
    }
}

/// The container a builder in Docker mode runs Ollama in: the default
/// container, with the GPU and host port asked for.
pub open spec fn builder_container(b: BuilderView) -> DockerView {
    DockerView {
        container_name: default_container_name(),
        image: default_image(),
        host_port: match b.docker_port {
            Some(p) => p,
            None => DEFAULT_HOST_PORT,
        },
        persist_models: true,
        gpu: b.docker_gpu,
    }
}

/// Configures and creates an `OddOnkey` instance.
#[derive(Debug)]
pub struct OddOnkeyBuilder {
    model_name: String,
    base_url: String,
    progress: bool,
    report: bool,
    docker: bool,
    docker_gpu: bool,
    docker_port: Option<u16>,
    docker_cleanup: bool,
}

impl View for OddOnkeyBuilder {
    type V = BuilderView;

    closed spec fn view(&self) -> BuilderView {
        BuilderView {
            model_name: self.model_name@,
            base_url: self.base_url@,
            progress: self.progress,
            report: self.report,
            docker: self.docker,
            docker_gpu: self.docker_gpu,
            docker_port: self.docker_port,
            docker_cleanup: self.docker_cleanup,
        }
    }
}

impl OddOnkeyBuilder {
    /// A builder for `model_name` against the default local server, with
    /// progress display, reports and Docker mode switched off.
    pub fn new(model_name: &str) -> (b: Self)
        ensures
            b@ == initial_builder(model_name@),
    {
        OddOnkeyBuilder {
            model_name: String::from_str(model_name),
            base_url: String::from_str("http://127.0.0.1:11434"),
            progress: false,
            report: false,
            docker: false,
            docker_gpu: false,
            docker_port: None,
            docker_cleanup: false,
        }
    }

    /// Override the Ollama server URL; trailing slashes are dropped.
    pub fn base_url(self, url: &str) -> (b: Self)
        ensures
            b@ == (BuilderView { base_url: trim_end_char(url@, '/'), ..self@ }),
    {
        OddOnkeyBuilder { base_url: trim_end_matches_char(url, '/'), ..self }
    }

    /// Enable a progress display during model pull / server start.
    pub fn progress(self, on: bool) -> (b: Self)
        ensures
            b@ == (BuilderView { progress: on, ..self@ }),
    {
        OddOnkeyBuilder { progress: on, ..self }
    }

    /// Enable the per-prompt report.
    pub fn report(self, on: bool) -> (b: Self)
        ensures
            b@ == (BuilderView { report: on, ..self@ }),
    {
        OddOnkeyBuilder { report: on, ..self }
    }

    /// Run Ollama inside a Docker container instead of a local install.
    pub fn docker(self, on: bool) -> (b: Self)
        ensures
            b@ == (BuilderView { docker: on, ..self@ }),
    {
        OddOnkeyBuilder { docker: on, ..self }
    }

    /// Request GPU passthrough for the container.
    pub fn docker_gpu(self, on: bool) -> (b: Self)
        ensures
            b@ == (BuilderView { docker_gpu: on, ..self@ }),
    {
        OddOnkeyBuilder { docker_gpu: on, ..self }
    }

    /// The host port the container is reached on.
    pub fn docker_port(self, port: u16) -> (b: Self)
        ensures
            b@ == (BuilderView { docker_port: Some(port), ..self@ }),
    {
        OddOnkeyBuilder { docker_port: Some(port), ..self }
    }

    /// Remove the container and its model volume when the handle is dropped.
    pub fn docker_cleanup(self, on: bool) -> (b: Self)
        ensures
            b@ == (BuilderView { docker_cleanup: on, ..self@ }),
    {
        OddOnkeyBuilder { docker_cleanup: on, ..self }
    }

    /// Whether Ollama runs in Docker.
    pub fn uses_docker(&self) -> (r: bool)
        ensures
            r == self@.docker,
    {
        self.docker
    }

    /// Whether the container is removed when the handle is dropped.
    pub fn cleans_up_docker(&self) -> (r: bool)
        ensures
            r == self@.docker_cleanup,
    {
        self.docker_cleanup
    }

    /// The container Docker mode uses.
    pub fn docker_manager(&self) -> (m: DockerManager)
        ensures
            m@ == builder_container(self@),
    {
        let port = match self.docker_port {
            Some(p) => p,
            None => DEFAULT_HOST_PORT,
        };
        DockerManager::new().gpu(self.docker_gpu).host_port(port)
    }

    /// The model the handle will use.
    pub fn model_name(&self) -> (r: &str)
        ensures
            r@ == self@.model_name,
    {
        self.model_name.as_str()
    }

    /// The server URL the handle will talk to.
    pub fn server_url(&self) -> (r: &str)
        ensures
            r@ == self@.base_url,
    {
        self.base_url.as_str()
    }

    /// Whether a progress display was requested.
    pub fn shows_progress(&self) -> (r: bool)
        ensures
            r == self@.progress,
    {
        self.progress
    }

    /// Whether per-prompt reports were requested.
    pub fn reports(&self) -> (r: bool)
        ensures
            r == self@.report,
    {
        self.report
    }
}

/// A URL passed through `base_url` twice is stored as if passed once, and the
/// stored URL never ends in a slash.
pub proof fn lemma_base_url_normal_form(url: Seq<char>)
    ensures
        trim_end_char(trim_end_char(url, '/'), '/') == trim_end_char(url, '/'),
        trim_end_char(url, '/').len() == 0 || trim_end_char(url, '/').last() != '/',
    decreases url.len(),
{
    if url.len() > 0 && url.last() == '/' {
        lemma_base_url_normal_form(url.drop_last());
    }
}

} // verus!
