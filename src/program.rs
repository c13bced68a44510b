use vstd::prelude::*;
use crate::backend::{
    COMPILE_STATUS, FRAGMENT_SHADER, GlError, GlFunctions, LINK_STATUS, Resource, ShaderStage,
    VERTEX_SHADER, allocated,
};
use crate::shader::{add_defines, strings_view, with_defines};

verus! {

/// The location a backend reports for a uniform the program does not have.
pub const UNKNOWN_LOCATION: i32 = -1;

/// What a compile or link step reported.
#[derive(Clone, Debug)]
pub enum StepOutcome {
    /// Succeeded without messages.
    Clean,
    /// Succeeded with messages in the info log.
    Warning(String),
    /// Failed; the info log says why.
    Failed(String),
}

/// Judges a compile or link step from its status query (`1`, GL's TRUE, is success; any
/// other value is failure) and info log: a failed step is fatal whatever the log holds, a
/// successful one with a log is a warning.
pub fn classify_step(status: i32, log: String) -> (r: StepOutcome)
    ensures
        status != 1 ==> (r matches StepOutcome::Failed(l) && l@ == log@),
        status == 1 && log@.len() > 0 ==> (r matches StepOutcome::Warning(l) && l@ == log@),
        status == 1 && log@.len() == 0 ==> r is Clean,
{
    if status != 1 {
        StepOutcome::Failed(log)
    } else if log.unicode_len() > 0 {
        StepOutcome::Warning(log)
    } else {
        StepOutcome::Clean
    }
}

/// The result of compiling one stage, from its status and info log: a status other than
/// `1` is `ShaderCompileError` for the stage with the log; success carries the log as a
/// warning when it is not empty.
pub fn stage_outcome(status: i32, log: String, stage: ShaderStage) -> (r: Result<Option<String>, GlError>)
    ensures
        status != 1 ==> (r matches Err(GlError::ShaderCompileError(s, l)) && s == stage && l@ == log@),
        status == 1 && log@.len() == 0 ==> r matches Ok(None),
        status == 1 && log@.len() > 0 ==> (r matches Ok(Some(w)) && w@ == log@),
{
    match classify_step(status, log) {
        StepOutcome::Clean => Ok(None),
        StepOutcome::Warning(l) => Ok(Some(l)),
        StepOutcome::Failed(l) => Err(GlError::ShaderCompileError(stage, l)),
    }
}

/// The result of linking, from the link status and the program's info log: a status
/// other than `1` is `ProgramLinkError` with the log; success carries the log as a warning
/// when it is not empty.
pub fn link_outcome(status: i32, log: String) -> (r: Result<Option<String>, GlError>)
    ensures
        status != 1 ==> (r matches Err(GlError::ProgramLinkError(l)) && l@ == log@),
        status == 1 && log@.len() == 0 ==> r matches Ok(None),
        status == 1 && log@.len() > 0 ==> (r matches Ok(Some(w)) && w@ == log@),
{
    match classify_step(status, log) {
        StepOutcome::Clean => Ok(None),
        StepOutcome::Warning(l) => Ok(Some(l)),
        StepOutcome::Failed(l) => Err(GlError::ProgramLinkError(l)),
    }
}

/// What the backend answered for one shader stage: whether it allocated the shader, then
/// its compile status and info log.
pub struct StageAnswer {
    pub created: bool,
    pub status: i32,
    pub log: String,
}

/// What the backend answered while a program was built.
pub struct BuildAnswers<P> {
    pub vertex: StageAnswer,
    pub fragment: StageAnswer,
    /// The program object it allocated, if any.
    pub program: Option<P>,
    pub link_status: i32,
    pub link_log: String,
}

/// A log as a list of warnings: none when it is empty.
pub open spec fn warning_of(log: String) -> Seq<Seq<char>> {
    if log@.len() > 0 {
        seq![log@]
    } else {
        Seq::empty()
    }
}

/// The location cached for `name`: the first entry with that name.
pub open spec fn cached(entries: Seq<(String, i32)>, name: Seq<char>) -> Option<i32>
    decreases entries.len(),
{
    if entries.len() == 0 {
        None
    } else {
        match cached(entries.drop_last(), name) {
            Some(l) => Some(l),
            None => if entries.last().0@ == name {
                Some(entries.last().1)
            } else {
                None
            },
        }
    }
}

proof fn lemma_cached_prefix(entries: Seq<(String, i32)>, i: int, name: Seq<char>)
    requires
        0 <= i <= entries.len(),
        cached(entries.take(i), name) is Some,
    ensures
        cached(entries, name) == cached(entries.take(i), name),
    decreases entries.len() - i,
{
    if i < entries.len() {
        let t = entries.take(i + 1);
        assert(t.drop_last() =~= entries.take(i));
        lemma_cached_prefix(entries, i + 1, name);
    } else {
        assert(entries.take(i) =~= entries);
    }
}

/// One uniform lookup, from the cache `before` (with the backend lookups `l0` issued so
/// far, each a name and the backend's answer) to the cache `after` (with `l1`), answering
/// `r`: a cached name answers from the cache and asks the backend nothing; any other name
/// is asked of the backend once, and its answer, `-1` included, is returned and cached.
pub open spec fn uniform_step(
    before: Seq<(String, i32)>,
    l0: Seq<(Seq<char>, i32)>,
    name: Seq<char>,
    after: Seq<(String, i32)>,
    l1: Seq<(Seq<char>, i32)>,
    r: i32,
) -> bool {
    match cached(before, name) {
        Some(l) => r == l && after == before && l1 == l0,
        None => {
            &&& after.len() == before.len() + 1
            &&& after.drop_last() == before
            &&& after.last().0@ == name
            &&& after.last().1 == r
            &&& l1 == l0.push((name, r))
        },
    }
}

/// The record `from_source_traced` keeps of the GPU objects it creates, links and
/// deletes, in the order it issues those calls.
#[derive(Clone, Copy, Debug, PartialEq, Eq, Structural)]
pub enum HandleEvent {
    CreatedShader(ShaderStage),
    DeletedShader(ShaderStage),
    CreatedProgram,
    Linked,
    DeletedProgram,
}

/// The backend calls a program issues after it was built, in order (uniform lookups are
/// counted apart).
#[derive(Clone, Copy, Debug, PartialEq, Eq, Structural)]
pub enum ProgramCall {
    /// `use_program` with this program's handle.
    Use,
    /// `uniform_1i` at a location with a value.
    Uniform1i(i32, i32),
}

/// What `from_source` created and deleted for each outcome: on success both shaders are
/// deleted after the link and the program is kept; on any failure every object created
/// so far is deleted exactly once.
pub open spec fn build_trace<P>(r: Result<P, GlError>, t: Seq<HandleEvent>) -> bool {
    let cv = HandleEvent::CreatedShader(ShaderStage::Vertex);
    let cf = HandleEvent::CreatedShader(ShaderStage::Fragment);
    let dv = HandleEvent::DeletedShader(ShaderStage::Vertex);
    let df = HandleEvent::DeletedShader(ShaderStage::Fragment);
    match r {
        Ok(_) => t == seq![cv, cf, HandleEvent::CreatedProgram, HandleEvent::Linked, dv, df],
        Err(GlError::ResourceCreationFailed(Resource::Shader)) => t == Seq::<HandleEvent>::empty()
            || t == seq![cv, dv],
        Err(GlError::ShaderCompileError(ShaderStage::Vertex, _)) => t == seq![cv, dv],
        Err(GlError::ShaderCompileError(ShaderStage::Fragment, _)) => t == seq![cv, cf, df, dv],
        Err(GlError::ResourceCreationFailed(Resource::Program)) => t == seq![cv, cf, dv, df],
        Err(GlError::ProgramLinkError(_)) => t == seq![
            cv,
            cf,
            HandleEvent::CreatedProgram,
            HandleEvent::Linked,
            dv,
            df,
            HandleEvent::DeletedProgram,
        ],
        _ => false,
    }
}

/// The answer of a uniform lookup.
#[derive(Clone, Copy, Debug, PartialEq, Eq, Structural)]
pub struct UniformLookup {
    /// The location, `-1` for a uniform the program lacks.
    pub location: i32,
    /// This lookup asked the backend and learnt that the uniform is unknown: the one time
    /// an unknown uniform is to be reported.
    pub first_miss: bool,
}

/// A linked shader program and its cache of uniform locations.
pub struct Program<G: GlFunctions> {
    id: G::GlProgram,
    cache: Vec<(String, i32)>,
    lookups: Ghost<Seq<(Seq<char>, i32)>>,
    issued: Ghost<Seq<ProgramCall>>,
}

/// The two shader sources with the defines injected, as they are handed to the backend.
pub fn prepared_sources(vertex: &str, fragment: &str, defines: &Vec<String>) -> (r: (String, String))
    ensures
        r.0@ == with_defines(vertex@, strings_view(defines@)),
        r.1@ == with_defines(fragment@, strings_view(defines@)),
{
    (add_defines(vertex, defines), add_defines(fragment, defines))
}

proof fn lemma_strings_push(v: Seq<String>, x: String)
    ensures
        strings_view(v.push(x)) == strings_view(v).push(x@),
{
    assert(strings_view(v.push(x)) =~= strings_view(v).push(x@));
}

/// Creates, loads and compiles one shader stage; deletes it again when it fails. Returns
/// with the result the record of the objects it created and deleted, and the backend's
/// answers.
fn compile_stage<G: GlFunctions>(gl: &G, kind: u32, stage: ShaderStage, source: &str, warnings: &mut Vec<String>) -> (r: (Result<G::GlShader, GlError>, Ghost<Seq<HandleEvent>>, Ghost<StageAnswer>))
    ensures
        !r.2@.created ==> (r.0 matches Err(GlError::ResourceCreationFailed(x)) && x == Resource::Shader
            && r.1@ == Seq::<HandleEvent>::empty() && final(warnings)@ == old(warnings)@),
        r.2@.created && r.2@.status != 1 ==> (r.0 matches Err(GlError::ShaderCompileError(s, l)) && s == stage
            && l@ == r.2@.log@ && final(warnings)@ == old(warnings)@
            && r.1@ == seq![HandleEvent::CreatedShader(stage), HandleEvent::DeletedShader(stage)]),
        r.2@.created && r.2@.status == 1 ==> (r.0 is Ok && r.1@ == seq![HandleEvent::CreatedShader(stage)]
            && strings_view(final(warnings)@) == strings_view(old(warnings)@) + warning_of(r.2@.log)),
{
    let shader = match allocated(gl.create_shader(kind), Resource::Shader) {
        Ok(s) => s,
        Err(e) => {
            let ghost t = Seq::<HandleEvent>::empty();
            let ghost a = StageAnswer { created: false, status: 0, log: arbitrary() };
            return (Err(e), Ghost(t), Ghost(a));
        },
    };
    gl.shader_source(&shader, source);
    gl.compile_shader(&shader);
    let status = gl.get_shader_parameter(&shader, COMPILE_STATUS);
    let log = gl.get_shader_info_log(&shader);
    let ghost a = StageAnswer { created: true, status, log };
    let ghost created = seq![HandleEvent::CreatedShader(stage)];
    match stage_outcome(status, log, stage) {
        Ok(None) => {
            proof {
                assert(strings_view(old(warnings)@) + warning_of(a.log) =~= strings_view(old(warnings)@));
            }
            (Ok(shader), Ghost(created), Ghost(a))
        },
        Ok(Some(l)) => {
            let ghost before = warnings@;
            warnings.push(l);
            proof {
                lemma_strings_push(before, l);
                assert(strings_view(before).push(l@) =~= strings_view(before) + warning_of(a.log));
            }
            (Ok(shader), Ghost(created), Ghost(a))
        },
        Err(e) => {
            gl.delete_shader(&shader);
            let ghost t = created.push(HandleEvent::DeletedShader(stage));
            proof {
                assert(t =~= seq![HandleEvent::CreatedShader(stage), HandleEvent::DeletedShader(stage)]);
            }
            (Err(e), Ghost(t), Ghost(a))
        },
    }
}

/// The result of building a program from the backend's answers: each step in turn
/// decides (`allocated`, `stage_outcome` for each stage, `allocated` for the program,
/// `link_outcome`); on success the program holds the program object the backend
/// allocated, its cache is empty, it has issued nothing, and the warnings are the
/// non-empty logs of the vertex stage, the fragment stage and the link, in that order.
pub open spec fn build_result<G: GlFunctions>(
    r: Result<(Program<G>, Vec<String>), GlError>,
    a: BuildAnswers<G::GlProgram>,
) -> bool {
    if !a.vertex.created {
        r matches Err(GlError::ResourceCreationFailed(x)) && x == Resource::Shader
    } else if a.vertex.status != 1 {
        r matches Err(GlError::ShaderCompileError(s, l)) && s == ShaderStage::Vertex && l@ == a.vertex.log@
    } else if !a.fragment.created {
        r matches Err(GlError::ResourceCreationFailed(x)) && x == Resource::Shader
    } else if a.fragment.status != 1 {
        r matches Err(GlError::ShaderCompileError(s, l)) && s == ShaderStage::Fragment && l@ == a.fragment.log@
    } else if a.program is None {
        r matches Err(GlError::ResourceCreationFailed(x)) && x == Resource::Program
    } else if a.link_status != 1 {
        r matches Err(GlError::ProgramLinkError(l)) && l@ == a.link_log@
    } else {
        r matches Ok(p) && a.program == Some(p.0.handle()) && p.0.entries().len() == 0
            && p.0.lookups().len() == 0 && p.0.issued().len() == 0
            && strings_view(p.1@) == warning_of(a.vertex.log) + warning_of(a.fragment.log) + warning_of(a.link_log)
    }
}

impl<G: GlFunctions> Program<G> {
    /// The backend's program object.
    pub closed spec fn handle(self) -> G::GlProgram {
        self.id
    }

    /// The cache entries, in the order they were added.
    pub closed spec fn entries(self) -> Seq<(String, i32)> {
        self.cache@
    }

    /// The uniform lookups this program has issued to the backend with its handle, in
    /// order: each name with the backend's answer.
    pub closed spec fn lookups(self) -> Seq<(Seq<char>, i32)> {
        self.lookups@
    }

    /// The other backend calls this program has issued, in order.
    pub closed spec fn issued(self) -> Seq<ProgramCall> {
        self.issued@
    }

    /// Compiles both stages with the defines injected (`prepared_sources`) and links them.
    /// Returns with the result the record this function keeps of the objects it created,
    /// linked and deleted, and of what the backend answered at each step; the result is
    /// the one `build_result` gives for those answers.
    pub fn from_source_traced(gl: &G, vertex: &str, fragment: &str, defines: &Vec<String>) -> (r: (Result<(Program<G>, Vec<String>), GlError>, Ghost<Seq<HandleEvent>>, Ghost<BuildAnswers<G::GlProgram>>))
        ensures
            build_trace(r.0, r.1@),
            build_result(r.0, r.2@),
    {
        let (vertex_code, fragment_code) = prepared_sources(vertex, fragment, defines);
        let mut warnings: Vec<String> = Vec::new();
        let (vr, Ghost(tv), Ghost(av)) = compile_stage(gl, VERTEX_SHADER, ShaderStage::Vertex, vertex_code.as_str(), &mut warnings);
        let vs = match vr {
            Ok(s) => s,
            Err(e) => {
                let ghost a = BuildAnswers { vertex: av, fragment: arbitrary(), program: None, link_status: 0, link_log: arbitrary() };
                return (Err(e), Ghost(tv), Ghost(a));
            },
        };
        let (fr, Ghost(tf), Ghost(af)) = compile_stage(gl, FRAGMENT_SHADER, ShaderStage::Fragment, fragment_code.as_str(), &mut warnings);
        let fs = match fr {
            Ok(s) => s,
            Err(e) => {
                gl.delete_shader(&vs);
                let ghost t = tv + tf + seq![HandleEvent::DeletedShader(ShaderStage::Vertex)];
                let ghost a = BuildAnswers { vertex: av, fragment: af, program: None, link_status: 0, link_log: arbitrary() };
                proof {
                    assert(t =~= seq![
                        HandleEvent::CreatedShader(ShaderStage::Vertex),
                        HandleEvent::CreatedShader(ShaderStage::Fragment),
                        HandleEvent::DeletedShader(ShaderStage::Fragment),
                        HandleEvent::DeletedShader(ShaderStage::Vertex),
                    ] || t =~= seq![
                        HandleEvent::CreatedShader(ShaderStage::Vertex),
                        HandleEvent::DeletedShader(ShaderStage::Vertex),
                    ]);
                }
                return (Err(e), Ghost(t), Ghost(a));
            },
        };
        let ghost shaders = tv + tf;
        let id = match allocated(gl.create_program(), Resource::Program) {
            Ok(p) => p,
            Err(e) => {
                gl.delete_shader(&vs);
                gl.delete_shader(&fs);
                let ghost t = shaders + seq![
                    HandleEvent::DeletedShader(ShaderStage::Vertex),
                    HandleEvent::DeletedShader(ShaderStage::Fragment),
                ];
                let ghost a = BuildAnswers { vertex: av, fragment: af, program: None, link_status: 0, link_log: arbitrary() };
                proof {
                    assert(t =~= seq![
                        HandleEvent::CreatedShader(ShaderStage::Vertex),
                        HandleEvent::CreatedShader(ShaderStage::Fragment),
                        HandleEvent::DeletedShader(ShaderStage::Vertex),
                        HandleEvent::DeletedShader(ShaderStage::Fragment),
                    ]);
                }
                return (Err(e), Ghost(t), Ghost(a));
            },
        };
        gl.attach_shader(&id, &vs);
        gl.attach_shader(&id, &fs);
        gl.link_program(&id);
        let status = gl.get_program_parameter(&id, LINK_STATUS);
        let log = gl.get_program_info_log(&id);
        gl.delete_shader(&vs);
        gl.delete_shader(&fs);
        let ghost a = BuildAnswers { vertex: av, fragment: af, program: Some(id), link_status: status, link_log: log };
        let ghost linked = shaders + seq![
            HandleEvent::CreatedProgram,
            HandleEvent::Linked,
            HandleEvent::DeletedShader(ShaderStage::Vertex),
            HandleEvent::DeletedShader(ShaderStage::Fragment),
        ];
        let ghost w0 = warnings@;
        match link_outcome(status, log) {
            Ok(None) => {
                proof {
                    assert(strings_view(w0) + warning_of(a.link_log) =~= strings_view(w0));
                }
            },
            Ok(Some(l)) => {
                warnings.push(l);
                proof {
                    lemma_strings_push(w0, l);
                    assert(strings_view(w0).push(l@) =~= strings_view(w0) + warning_of(a.link_log));
                }
            },
            Err(e) => {
                gl.delete_program(&id);
                let ghost t = linked + seq![HandleEvent::DeletedProgram];
                proof {
                    assert(t =~= seq![
                        HandleEvent::CreatedShader(ShaderStage::Vertex),
                        HandleEvent::CreatedShader(ShaderStage::Fragment),
                        HandleEvent::CreatedProgram,
                        HandleEvent::Linked,
                        HandleEvent::DeletedShader(ShaderStage::Vertex),
                        HandleEvent::DeletedShader(ShaderStage::Fragment),
                        HandleEvent::DeletedProgram,
                    ]);
                }
                return (Err(e), Ghost(t), Ghost(a));
            },
        }
        proof {
            assert(linked =~= seq![
                HandleEvent::CreatedShader(ShaderStage::Vertex),
                HandleEvent::CreatedShader(ShaderStage::Fragment),
                HandleEvent::CreatedProgram,
                HandleEvent::Linked,
                HandleEvent::DeletedShader(ShaderStage::Vertex),
                HandleEvent::DeletedShader(ShaderStage::Fragment),
            ]);
        }
        let program = Program { id, cache: Vec::new(), lookups: Ghost(Seq::empty()), issued: Ghost(Seq::empty()) };
        (Ok((program, warnings)), Ghost(linked), Ghost(a))
    }

    /// `from_source_traced` without the records: the result is the one `build_result`
    /// gives for some answers of the backend, with a matching record of objects.
    pub fn from_source(gl: &G, vertex: &str, fragment: &str, defines: &Vec<String>) -> (r: Result<(Program<G>, Vec<String>), GlError>)
        ensures
            exists|t: Seq<HandleEvent>, a: BuildAnswers<G::GlProgram>| build_trace(r, t) && build_result(r, a),
    {
        let (r, Ghost(t), Ghost(a)) = Self::from_source_traced(gl, vertex, fragment, defines);
        proof {
            assert(build_trace(r, t) && build_result(r, a));
        }
        r
    }

    /// The backend's program object.
    pub fn id(&self) -> (r: &G::GlProgram)
        ensures
            *r == self.handle(),
    {
        &self.id
    }

    /// Makes this program the active one: one `use_program` call with its handle.
    pub fn use_program(&mut self, gl: &G)
        ensures
            final(self).issued() == old(self).issued().push(ProgramCall::Use),
            final(self).handle() == old(self).handle(),
            final(self).entries() == old(self).entries(),
            final(self).lookups() == old(self).lookups(),
    {
        gl.use_program(Some(&self.id));
        proof {
            self.issued = Ghost(self.issued@.push(ProgramCall::Use));
        }
    }

    /// The index of the cache entry that answers for `name`.
    fn find(&self, name: &str) -> (r: Option<usize>)
        ensures
            r matches Some(i) ==> (i < self.entries().len() && cached(self.entries(), name@) == Some(self.entries()[i as int].1)),
            r is None ==> cached(self.entries(), name@) is None,
    {
        let key = String::from_str(name);
        let n = self.cache.len();
        let mut i: usize = 0;
        while i < n
            invariant
                n == self.cache@.len(),
                i <= n,
                key@ == name@,
                cached(self.cache@.take(i as int), name@) is None,
            decreases n - i,
        {
            proof {
                let t = self.cache@.take(i + 1);
                assert(t.drop_last() =~= self.cache@.take(i as int));
            }
            if self.cache[i].0 == key {
                proof {
                    lemma_cached_prefix(self.cache@, i + 1, name@);
                }
                return Some(i);
            }
            i = i + 1;
        }
        proof {
            assert(self.cache@.take(n as int) =~= self.cache@);
        }
        None
    }

    /// Whether a location for `name` is cached, so that `uniform_location` will not ask
    /// the backend.
    pub fn is_cached(&self, name: &str) -> (r: bool)
        ensures
            r == (cached(self.entries(), name@) is Some),
    {
        self.find(name).is_some()
    }

    /// The location of a uniform. The first request for a name asks the backend and caches
    /// the answer, `-1` for a uniform the program lacks, and flags that first miss; later
    /// requests answer from the cache without asking again and flag nothing.
    pub fn uniform_location(&mut self, gl: &G, name: &str) -> (r: UniformLookup)
        ensures
            uniform_step(old(self).entries(), old(self).lookups(), name@, final(self).entries(), final(self).lookups(), r.location),
            r.first_miss == (cached(old(self).entries(), name@) is None && r.location == UNKNOWN_LOCATION),
            final(self).handle() == old(self).handle(),
            final(self).issued() == old(self).issued(),
    {
        if let Some(i) = self.find(name) {
            return UniformLookup { location: self.cache[i].1, first_miss: false };
        }
        let loc = gl.get_uniform_location(&self.id, name);
        let ghost before = self.cache@;
        self.cache.push((String::from_str(name), loc));
        proof {
            assert(self.cache@.drop_last() =~= before);
            self.lookups = Ghost(self.lookups@.push((name@, loc)));
        }
        UniformLookup { location: loc, first_miss: loc == UNKNOWN_LOCATION }
    }

    /// Sets an integer uniform by name: the location comes from the cache as with
    /// `uniform_location`, then one `uniform_1i` call sets it.
    pub fn set_int(&mut self, gl: &G, name: &str, value: i32) -> (r: UniformLookup)
        ensures
            uniform_step(old(self).entries(), old(self).lookups(), name@, final(self).entries(), final(self).lookups(), r.location),
            r.first_miss == (cached(old(self).entries(), name@) is None && r.location == UNKNOWN_LOCATION),
            final(self).handle() == old(self).handle(),
            final(self).issued() == old(self).issued().push(ProgramCall::Uniform1i(r.location, value)),
    {
        let r = self.uniform_location(gl, name);
        gl.uniform_1i(r.location, value);
        proof {
            self.issued = Ghost(self.issued@.push(ProgramCall::Uniform1i(r.location, value)));
        }
        r
    }

    /// Sets a boolean uniform by name, as `0` or `1`, like `set_int`.
    pub fn set_bool(&mut self, gl: &G, name: &str, value: bool) -> (r: UniformLookup)
        ensures
            uniform_step(old(self).entries(), old(self).lookups(), name@, final(self).entries(), final(self).lookups(), r.location),
            r.first_miss == (cached(old(self).entries(), name@) is None && r.location == UNKNOWN_LOCATION),
            final(self).handle() == old(self).handle(),
            final(self).issued() == old(self).issued().push(ProgramCall::Uniform1i(r.location, if value { 1 } else { 0 })),
    {
        self.set_int(gl, name, if value { 1 } else { 0 })
    }

    /// Releases the program object.
    pub fn delete(self, gl: &G) {
        gl.delete_program(&self.id);
    }
}

/// Looking up the same uniform twice answers the same location both times, issues at most
/// one backend lookup, and leaves the cache as the first lookup left it.
pub proof fn lemma_uniform_location_idempotent(
    c0: Seq<(String, i32)>,
    l0: Seq<(Seq<char>, i32)>,
    name: Seq<char>,
    c1: Seq<(String, i32)>,
    l1: Seq<(Seq<char>, i32)>,
    r1: i32,
    c2: Seq<(String, i32)>,
    l2: Seq<(Seq<char>, i32)>,
    r2: i32,
)
    requires
        uniform_step(c0, l0, name, c1, l1, r1),
        uniform_step(c1, l1, name, c2, l2, r2),
    ensures
        r2 == r1,
        c2 == c1,
        l2 == l1,
        l1.len() <= l0.len() + 1,
        cached(c1, name) == Some(r1),
{
}

} // verus!
