//! Shader sources. Compiling and linking them is the renderer's affair;
//! the library only carries the text and answers path queries.

use vstd::prelude::*;

verus! {

/// The sources of a shader program: a vertex stage, a fragment stage, and
/// an optional geometry stage.
#[derive(Debug)]
pub struct Shader {
    vertex: String,
    fragment: String,
    geometry: Option<String>,
}

impl Shader {
    /// Bundle shader sources.
    pub fn new(vertex: String, fragment: String, geometry: Option<String>) -> (r: Shader)
        ensures
            r.spec_vertex() == vertex@,
            r.spec_fragment() == fragment@,
            r.spec_geometry() == geometry,
    {
        Shader { vertex, fragment, geometry }
    }

    /// The vertex stage's source.
    pub closed spec fn spec_vertex(self) -> Seq<char> {
        self.vertex@
    }

    /// The fragment stage's source.
    pub closed spec fn spec_fragment(self) -> Seq<char> {
        self.fragment@
    }

    /// The geometry stage's source, if one was given.
    pub closed spec fn spec_geometry(self) -> Option<String> {
        self.geometry
    }

    /// The vertex stage's source.
    pub fn vertex(&self) -> (r: &str)
        ensures
            r@ == self.spec_vertex(),
    {
        self.vertex.as_str()
    }

    /// The fragment stage's source.
    pub fn fragment(&self) -> (r: &str)
        ensures
            r@ == self.spec_fragment(),
    {
        self.fragment.as_str()
    }

    /// The geometry stage's source, if one was given.
    pub fn geometry(&self) -> (r: Option<&str>)
        ensures
            match r {
                Some(s) => self.spec_geometry() matches Some(g) && g@ == s@,
                None => self.spec_geometry() matches None,
            },
    {
        match &self.geometry {
            None => None,
            Some(s) => Some(s.as_str()),
        }
    }

    /// Whether a file or directory exists at the path right now. The answer
    /// depends on the file system at the moment of the call, so nothing is
    /// promised of it.
    pub fn path_exists(file_path: &str) -> bool {
        file_present(file_path)
    }
}

/// Relies on std's `Path::exists`: whether the path names an existing file
/// or directory at the moment of the call. The answer depends on the disk,
/// so nothing is promised of it.
#[verifier::external_body]
fn file_present(file_path: &str) -> bool {
    std::path::Path::new(file_path).exists()
}

} // verus!
