//! The host bridge: the named native capabilities installed into every
//! execution environment, the marshaling convention for their arguments, and
//! the one binding this service ships ("print").

use vstd::prelude::*;

verus! {

/// The native callbacks the host can expose into a script environment. The
/// engine-side shell dispatches on this tag; the semantics of each callback
/// are defined (and verified) here.
#[derive(PartialEq, Eq, Structural, Clone, Copy, Debug)]
pub enum HostCallback {
    /// Writes its first argument to the observability sink and returns a
    /// fixed placeholder string to the script.
    Print,
}

/// A named capability exposed to scripts: script code referencing
/// `name(...)` invokes the callback.
pub struct HostBinding {
    pub name: String,
    pub callback: HostCallback,
}

/// Installation of a binding whose name is already taken: a configuration
/// error, not a runtime error.
#[derive(PartialEq, Eq, Structural, Clone, Copy, Debug)]
pub struct ConfigError;

/// The set of host bindings of one execution environment. Names are unique.
pub struct BindingSet {
    pub bindings: Vec<HostBinding>,
}

impl BindingSet {
    /// How many bindings are installed.
    pub open spec fn len(self) -> int {
        self.bindings@.len() as int
    }

    /// The name of the binding at position `i`, in installation order.
    pub open spec fn name_at(self, i: int) -> Seq<char> {
        self.bindings@[i].name@
    }

    /// Binding names are unique within an environment.
    pub open spec fn wf(self) -> bool {
        forall|i: int, j: int| 0 <= i < j < self.len() ==> self.name_at(i) != self.name_at(j)
    }

    /// Some installed binding carries this name.
    pub open spec fn has_name(self, n: Seq<char>) -> bool {
        exists|i: int| 0 <= i < self.len() && self.name_at(i) == n
    }

    /// An environment starts with no bindings.
    pub fn new() -> (r: BindingSet)
        ensures
            r.wf(),
            r.len() == 0,
    {
        BindingSet { bindings: Vec::new() }
    }

    /// Whether a binding of this name is already installed.
    pub fn contains_name(&self, n: &String) -> (r: bool)
        ensures
            r == self.has_name(n@),
    {
        let mut i: usize = 0;
        while i < self.bindings.len()
            invariant
                0 <= i <= self.bindings.len(),
                forall|j: int| 0 <= j < i ==> self.name_at(j) != n@,
            decreases self.bindings.len() - i,
        {
            if self.bindings[i].name == *n {
                assert(self.name_at(i as int) == n@);
                return true;
            }
            assert(self.name_at(i as int) != n@);
            i = i + 1;
        }
        false
    }

    /// Install one binding. Succeeds exactly when the name is still free;
    /// a collision is reported as a configuration error and changes nothing.
    pub fn install(&mut self, b: HostBinding) -> (r: Result<(), ConfigError>)
        requires
            old(self).wf(),
        ensures
            final(self).wf(),
            r is Ok <==> !old(self).has_name(b.name@),
            r is Ok ==> final(self).bindings@ =~= old(self).bindings@.push(b),
            r is Err ==> *final(self) == *old(self),
    {
        if self.contains_name(&b.name) {
            Err(ConfigError)
        } else {
            self.bindings.push(b);
            proof {
                assert forall|i: int, j: int|
                    0 <= i < j < self.len() implies self.name_at(i) != self.name_at(j) by {
                    if j < self.len() - 1 {
                        assert(old(self).name_at(i) != old(self).name_at(j));
                    } else {
                        assert(!old(self).has_name(b.name@));
                        assert(self.name_at(i) == old(self).name_at(i));
                    }
                }
            }
            Ok(())
        }
    }

    /// Install a configuration list of bindings, in order. All or nothing:
    /// it succeeds exactly when the list's names are pairwise distinct and
    /// none of them is already installed; any collision is a configuration
    /// error that leaves the environment unchanged.
    pub fn install_all(&mut self, list: Vec<HostBinding>) -> (r: Result<(), ConfigError>)
        requires
            old(self).wf(),
        ensures
            final(self).wf(),
            r is Ok <==> ((forall|p: int, q: int|
                0 <= p < q < list@.len() ==> list@[p].name@ != list@[q].name@) && (forall|p: int|
                0 <= p < list@.len() ==> !old(self).has_name(list@[p].name@))),
            r is Ok ==> final(self).bindings@ =~= old(self).bindings@ + list@,
            r is Err ==> *final(self) == *old(self),
    {
        let ghost l = list@;
        let mut i: usize = 0;
        while i < list.len()
            invariant
                list@ == l,
                0 <= i <= l.len(),
                *self == *old(self),
                old(self).wf(),
                forall|p: int, q: int| 0 <= p < q < i ==> l[p].name@ != l[q].name@,
                forall|p: int| 0 <= p < i ==> !old(self).has_name(l[p].name@),
            decreases l.len() - i,
        {
            if self.contains_name(&list[i].name) {
                return Err(ConfigError);
            }
            let mut j: usize = 0;
            while j < i
                invariant
                    list@ == l,
                    0 <= j <= i < l.len(),
                    *self == *old(self),
                    old(self).wf(),
                    forall|q: int| 0 <= q < j ==> l[q].name@ != l[i as int].name@,
                decreases i - j,
            {
                if list[j].name == list[i].name {
                    return Err(ConfigError);
                }
                j = j + 1;
            }
            i = i + 1;
        }
        let ghost pre = self.bindings@;
        let mut rest = list;
        let ghost mut k: int = 0;
        while rest.len() > 0
            invariant
                self.wf(),
                0 <= k <= l.len(),
                rest@ =~= l.subrange(k, l.len() as int),
                self.bindings@ =~= pre + l.subrange(0, k),
                pre == old(self).bindings@,
                old(self).wf(),
                forall|p: int, q: int| 0 <= p < q < l.len() ==> l[p].name@ != l[q].name@,
                forall|p: int| 0 <= p < l.len() ==> !old(self).has_name(l[p].name@),
            decreases rest@.len(),
        {
            let b = rest.remove(0);
            proof {
                assert(b == l[k]);
                assert forall|idx: int| 0 <= idx < self.len() implies self.name_at(idx)
                    != b.name@ by {
                    if idx < pre.len() {
                        assert(self.name_at(idx) == old(self).name_at(idx));
                        assert(!old(self).has_name(l[k].name@));
                    } else {
                        assert(self.name_at(idx) == l[idx - pre.len()].name@);
                    }
                }
                assert(!self.has_name(b.name@));
            }
            let installed = self.install(b);
            match installed {
                Ok(()) => {},
                Err(_) => {
                    proof {
                        assert(false);
                    }
                    return Err(ConfigError);
                },
            }
            proof {
                k = k + 1;
                assert(self.bindings@ =~= pre + l.subrange(0, k));
                assert(rest@ =~= l.subrange(k, l.len() as int));
            }
        }
        proof {
            assert(l.subrange(0, l.len() as int) =~= l);
        }
        Ok(())
    }
}

/// The name of the one capability this service exposes.
pub open spec fn print_name() -> Seq<char> {
    "print"@
}

/// The bindings installed into every fresh execution environment: exactly one,
/// the "print" capability.
pub fn default_bindings() -> (r: BindingSet)
    ensures
        r.wf(),
        r.len() == 1,
        r.name_at(0) == print_name(),
        r.bindings@[0].callback == HostCallback::Print,
{
    let mut set = BindingSet::new();
    let mut config: Vec<HostBinding> = Vec::new();
    config.push(HostBinding { name: "print".to_owned(), callback: HostCallback::Print });
    let installed = set.install_all(config);
    match installed {
        Ok(()) => set,
        Err(_) => {
            proof {
                assert(false);
            }
            set
        },
    }
}

/// An environment populated with exactly the default bindings holds no other
/// name: a global that some other script defined in its own environment is
/// not visible here.
pub proof fn lemma_fresh_environment_isolated(env: BindingSet, name: Seq<char>)
    requires
        env.len() == 1,
        env.name_at(0) == print_name(),
        name != print_name(),
    ensures
        !env.has_name(name),
{
}

/// The observability sink that host callbacks may write to: the one sanctioned
/// way script code affects the host. The engine-side shell forwards each
/// recorded line to the real sink.
pub struct Sink {
    pub lines: Vec<String>,
}

impl Sink {
    /// A sink that has observed nothing yet.
    pub fn new() -> (r: Sink)
        ensures
            r.lines@ =~= Seq::<String>::empty(),
    {
        Sink { lines: Vec::new() }
    }
}

/// The text an absent argument marshals to.
pub open spec fn absent_argument_text() -> Seq<char> {
    "undefined"@
}

/// The host-native text a script-supplied first argument marshals to.
pub open spec fn marshaled_text(arg: Option<String>) -> Seq<char> {
    match arg {
        Some(s) => s@,
        None => absent_argument_text(),
    }
}

/// Marshal the script-supplied first argument to its host-native text.
/// Absence is an empty/undefined value, not an error.
pub fn marshal_argument(arg: Option<String>) -> (r: String)
    ensures
        r@ == marshaled_text(arg),
        arg matches Some(s) ==> r == s,
{
    match arg {
        Some(s) => s,
        None => "undefined".to_owned(),
    }
}

/// The fixed placeholder string the "print" binding returns to the script,
/// whatever its argument was.
pub open spec fn print_return_text() -> Seq<char> {
    "returned string"@
}

/// The "print" callback: record the marshaled argument on the sink exactly
/// once, and hand the fixed placeholder string back to the script.
pub fn invoke_print(sink: &mut Sink, arg: String) -> (ret: String)
    ensures
        final(sink).lines@ =~= old(sink).lines@.push(arg),
        ret@ == print_return_text(),
{
    sink.lines.push(arg);
    "returned string".to_owned()
}

/// Dispatch one script-initiated call of a host callback: marshal the
/// argument, run the callback against the sink, return the marshaled result
/// to the script's value space.
pub fn dispatch(callback: &HostCallback, sink: &mut Sink, arg: Option<String>) -> (ret: String)
    ensures
        final(sink).lines@.len() == old(sink).lines@.len() + 1,
        final(sink).lines@.subrange(0, old(sink).lines@.len() as int) =~= old(sink).lines@,
        final(sink).lines@.last()@ == marshaled_text(arg),
        arg matches Some(s) ==> final(sink).lines@ =~= old(sink).lines@.push(s),
        ret@ == print_return_text(),
{
    match callback {
        HostCallback::Print => {
            let line = marshal_argument(arg);
            invoke_print(sink, line)
        }
    }
}

} // verus!
