//! The small slice of the embedding object model that the callable
//! wrappers rely on: object references with class introspection, the
//! runtime-context handle and call-argument bundle handed to native
//! entry points, the error values, object allocation with fresh
//! identities, and the bound-method objects that descriptors produce.

use vstd::prelude::*;

verus! {

/// Identity of a class in the embedding type registry.
pub type ClassId = u64;

/// A shared reference to an object of the interpreted layer, carrying
/// the identity of the object and of its class (`class_of`).
#[derive(Clone, Copy, PartialEq, Eq, Structural, Debug)]
pub struct ObjRef {
    pub class: ClassId,
    pub id: u64,
}

/// The opaque runtime-context handle that is passed through, unchanged,
/// to every native entry point.
#[derive(Clone, Copy, PartialEq, Eq, Structural, Debug)]
pub struct VmRef {
    pub id: u64,
}

/// The bundle of call arguments forwarded, unchanged, to a native entry
/// point.
pub struct FuncArgs {
    pub args: Vec<ObjRef>,
}

impl View for FuncArgs {
    type V = Seq<ObjRef>;

    open spec fn view(&self) -> Seq<ObjRef> {
        self.args@
    }
}

/// An error value surfaced to the interpreted layer.
#[derive(Clone, Copy, PartialEq, Eq, Structural, Debug)]
pub enum PyErr {
    /// A descriptor was accessed on behalf of a class incompatible with
    /// its owning class; `found` is the class the access came through,
    /// or `None` when neither an instance nor a class was supplied.
    TypeMismatch { expected: ClassId, found: Option<ClassId> },
    /// An error object produced by a native entry point; passed through
    /// unchanged by every wrapper.
    Native(ObjRef),
}

/// What a native entry point, and every callable wrapper around one,
/// returns.
pub type PyResult = Result<ObjRef, PyErr>;

/// The classes of the type registry that this subsystem builds objects
/// of, or compares against.
#[derive(Clone, Copy, PartialEq, Eq, Structural, Debug)]
pub struct PyTypes {
    pub builtin_function_or_method_type: ClassId,
    pub method_descriptor_type: ClassId,
    pub classmethod_type: ClassId,
    pub bound_method_type: ClassId,
    pub none_type: ClassId,
}

impl PyTypes {
    /// The five classes are distinct entries of the registry.
    pub open spec fn wf(self) -> bool {
        &&& self.builtin_function_or_method_type != self.method_descriptor_type
        &&& self.builtin_function_or_method_type != self.classmethod_type
        &&& self.builtin_function_or_method_type != self.bound_method_type
        &&& self.builtin_function_or_method_type != self.none_type
        &&& self.method_descriptor_type != self.classmethod_type
        &&& self.method_descriptor_type != self.bound_method_type
        &&& self.method_descriptor_type != self.none_type
        &&& self.classmethod_type != self.bound_method_type
        &&& self.classmethod_type != self.none_type
        &&& self.bound_method_type != self.none_type
    }
}

/// The attribute surface installed on a class: which of the read-only
/// properties it exposes, and which capabilities it has.
#[derive(Clone, Copy, PartialEq, Eq, Structural, Debug)]
pub struct ClassSlots {
    pub has_module: bool,
    pub has_name: bool,
    pub has_doc: bool,
    pub is_descriptor: bool,
    pub is_callable: bool,
}

/// The identity reserved for the `None` singleton; freshly allocated
/// objects never take it.
pub const NONE_ID: u64 = 0;

/// The runtime context: the type registry, the allocation counter for
/// fresh object identities, and the attribute surfaces installed at
/// bootstrap on the two classes this subsystem owns.
pub struct PyContext {
    pub types: PyTypes,
    pub next_id: u64,
    pub function_slots: Option<ClassSlots>,
    pub method_descriptor_slots: Option<ClassSlots>,
}

impl PyContext {
    /// A context is well formed when its registry is and when no fresh
    /// identity can collide with the `None` singleton's.
    pub open spec fn wf(self) -> bool {
        &&& self.types.wf()
        &&& self.next_id > NONE_ID
    }

    /// What stays fixed over an allocation: everything but the counter,
    /// which moves up by one.
    pub open spec fn bumped(pre: PyContext, post: PyContext) -> bool {
        &&& post.types == pre.types
        &&& post.function_slots == pre.function_slots
        &&& post.method_descriptor_slots == pre.method_descriptor_slots
        &&& post.next_id == pre.next_id + 1
    }

    pub fn new(types: PyTypes) -> (r: Self)
        requires
            types.wf(),
        ensures
            r.wf(),
            r.types == types,
            r.next_id == NONE_ID + 1,
            r.function_slots is None,
            r.method_descriptor_slots is None,
    {
        PyContext { types, next_id: NONE_ID + 1, function_slots: None, method_descriptor_slots: None }
    }

    /// Hands out an object identity never handed out before, and never
    /// again.
    pub fn fresh_id(&mut self) -> (r: u64)
        requires
            old(self).next_id < u64::MAX,
        ensures
            r == old(self).next_id,
            PyContext::bumped(*old(self), *final(self)),
            old(self).wf() ==> final(self).wf(),
    {
        let r = self.next_id;
        self.next_id = self.next_id + 1;
        r
    }

    /// The `None` singleton of the interpreted layer.
    pub open spec fn spec_none_obj(&self) -> ObjRef {
        ObjRef { class: self.types.none_type, id: NONE_ID }
    }

    #[verifier::when_used_as_spec(spec_none_obj)]
    pub fn none_obj(&self) -> (r: ObjRef)
        ensures
            r == self.spec_none_obj(),
    {
        ObjRef { class: self.types.none_type, id: NONE_ID }
    }

    /// Whether an object reference is the `None` singleton.
    pub open spec fn spec_is_none(&self, o: &ObjRef) -> bool {
        *o == self.spec_none_obj()
    }

    #[verifier::when_used_as_spec(spec_is_none)]
    pub fn is_none(&self, o: &ObjRef) -> (r: bool)
        ensures
            r == self.spec_is_none(o),
    {
        o.class == self.types.none_type && o.id == NONE_ID
    }

    /// Lowers an optional object to the interpreted layer, where absence
    /// is the `None` singleton.
    pub fn unwrap_or_none(&self, x: Option<ObjRef>) -> (r: ObjRef)
        ensures
            x matches Some(o) ==> r == o,
            x is None ==> r == self.spec_none_obj(),
    {
        match x {
            Some(o) => o,
            None => self.none_obj(),
        }
    }
}

/// An allocated object of the interpreted layer: a native payload
/// wrapped with a class and a fresh identity.
pub struct PyObj<T> {
    pub id: u64,
    pub class: ClassId,
    pub value: T,
}

impl PyContext {
    /// Allocates a new object of the given class around a native
    /// payload. Each allocation yields a distinct identity.
    pub fn new_object<T>(&mut self, value: T, class: ClassId) -> (r: PyObj<T>)
        requires
            old(self).next_id < u64::MAX,
        ensures
            r.id == old(self).next_id,
            r.class == class,
            r.value == value,
            PyContext::bumped(*old(self), *final(self)),
            old(self).wf() ==> final(self).wf(),
    {
        let id = self.fresh_id();
        PyObj { id, class, value }
    }
}

/// Normalizes a descriptor access into its effective target, or fails
/// when the access comes through a class incompatible with the
/// descriptor's owner. `Ok(Some(i))` is an access through the instance
/// `i`; `Ok(None)` is an access through the owning class itself.
pub open spec fn spec_validate_access(
    owner: ClassId,
    instance: Option<ObjRef>,
    requested_class: Option<ClassId>,
) -> Result<Option<ObjRef>, PyErr> {
    match instance {
        Some(i) => if i.class == owner {
            Ok(Some(i))
        } else {
            Err(PyErr::TypeMismatch { expected: owner, found: Some(i.class) })
        },
        None => match requested_class {
            Some(c) => if c == owner {
                Ok(None)
            } else {
                Err(PyErr::TypeMismatch { expected: owner, found: Some(c) })
            },
            None => Err(PyErr::TypeMismatch { expected: owner, found: None }),
        },
    }
}

/// The descriptor-access validation helper shared by every
/// descriptor-capable type: resolves `(instance, requested_class)`
/// against the descriptor's owning class.
pub fn validate_access(
    owner: ClassId,
    instance: Option<ObjRef>,
    requested_class: Option<ClassId>,
) -> (r: Result<Option<ObjRef>, PyErr>)
    ensures
        r == spec_validate_access(owner, instance, requested_class),
{
    match instance {
        Some(i) => if i.class == owner {
            Ok(Some(i))
        } else {
            Err(PyErr::TypeMismatch { expected: owner, found: Some(i.class) })
        },
        None => match requested_class {
            Some(c) => if c == owner {
                Ok(None)
            } else {
                Err(PyErr::TypeMismatch { expected: owner, found: Some(c) })
            },
            None => Err(PyErr::TypeMismatch { expected: owner, found: None }),
        },
    }
}

/// A bound-method object: a callable paired with a fixed target, such
/// that invoking it supplies the target as the first call argument. It
/// shares the descriptor that manufactured it (recorded here by the
/// descriptor object's identity and its entry point) and shares the
/// target; it owns neither.
pub struct PyBoundMethod<F> {
    pub func: F,
    pub descriptor: u64,
    pub target: ObjRef,
}

impl PyContext {
    /// The bound-method constructor of the object model: allocates a
    /// fresh `bound-method` object pairing a callable with its target.
    pub fn new_bound_method<F>(&mut self, func: F, descriptor: u64, target: ObjRef) -> (r: PyObj<
        PyBoundMethod<F>,
    >)
        requires
            old(self).next_id < u64::MAX,
        ensures
            r.id == old(self).next_id,
            r.class == old(self).types.bound_method_type,
            r.value.func == func,
            r.value.descriptor == descriptor,
            r.value.target == target,
            PyContext::bumped(*old(self), *final(self)),
            old(self).wf() ==> final(self).wf(),
    {
        let class = self.types.bound_method_type;
        self.new_object(PyBoundMethod { func, descriptor, target }, class)
    }
}

impl<F: Fn(VmRef, FuncArgs) -> PyResult> PyObj<PyBoundMethod<F>> {
    /// Invokes the bound method: forwards the context handle to the
    /// shared entry point, with the bound target inserted in front of
    /// the caller's arguments, and returns exactly what the entry point
    /// returns.
    pub fn invoke(&self, vm: VmRef, args: FuncArgs) -> (r: PyResult)
        requires
            forall|a: FuncArgs|
                a@ == seq![self.value.target] + args@ ==> #[trigger] call_requires(
                    self.value.func,
                    (vm, a),
                ),
        ensures
            exists|a: FuncArgs|
                a@ == seq![self.value.target] + args@ && #[trigger] call_ensures(
                    self.value.func,
                    (vm, a),
                    r,
                ),
    {
        let ghost original: Seq<ObjRef> = args@;
        let mut v = args.args;
        v.insert(0, self.value.target);
        let full = FuncArgs { args: v };
        proof {
            assert(full@ =~= seq![self.value.target] + original);
        }
        (self.value.func)(vm, full)
    }
}

} // verus!
