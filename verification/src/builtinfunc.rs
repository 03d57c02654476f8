//! The callable wrappers themselves: `PyFuncDef`, the immutable triple
//! of native entry point, name and docstring; `PyBuiltinFunction`, the
//! plain non-binding callable; and `PyBuiltinMethod`, the method
//! descriptor.

use vstd::prelude::*;

use crate::objmodel::{
    ClassId, ClassSlots, FuncArgs, ObjRef, PyBoundMethod, PyContext, PyErr, PyObj, PyResult, VmRef,
    spec_validate_access, validate_access,
};

verus! {

/// The capability of being called: invocation forwards the runtime
/// context handle and the argument bundle, unchanged, to the wrapper's
/// native entry point, and returns exactly what the entry point
/// returns. The wrapper adds no validation, no translation of errors,
/// and no side effects of its own.
pub trait Callable<F> where F: Fn(VmRef, FuncArgs) -> PyResult {
    /// The native entry point that invocation forwards to.
    spec fn entry(&self) -> F;

    fn invoke(&self, vm: VmRef, args: FuncArgs) -> (r: PyResult)
        requires
            call_requires(self.entry(), (vm, args)),
        ensures
            call_ensures(self.entry(), (vm, args), r),
    ;
}

/// The immutable triple of a native entry point, an optional name and
/// an optional docstring. Everything else wraps it.
pub struct PyFuncDef<F> {
    pub func: F,
    pub name: Option<String>,
    pub doc: Option<String>,
}

impl<F> PyFuncDef<F> {
    /// Wraps a native entry point with no name and no doc.
    pub fn new(func: F) -> (r: Self)
        ensures
            r.func == func,
            r.name is None,
            r.doc is None,
    {
        PyFuncDef { func, name: None, doc: None }
    }

    /// Attaches a name, returning the updated definition.
    pub fn with_name(self, name: String) -> (r: Self)
        ensures
            r.func == self.func,
            r.name == Some(name),
            r.doc == self.doc,
    {
        PyFuncDef { name: Some(name), ..self }
    }

    /// Attaches a docstring, returning the updated definition.
    pub fn with_doc(self, doc: String) -> (r: Self)
        ensures
            r.func == self.func,
            r.name == self.name,
            r.doc == Some(doc),
    {
        PyFuncDef { doc: Some(doc), ..self }
    }

    /// Consumes the definition into a plain callable with no module
    /// attached.
    pub fn into_function(self) -> (r: PyBuiltinFunction<F>)
        ensures
            r.value == self,
            r.module is None,
    {
        PyBuiltinFunction { value: self, module: None }
    }

    /// Consumes the definition into a plain-callable object of the
    /// interpreted layer.
    pub fn build_function(self, ctx: &mut PyContext) -> (r: PyObj<PyBuiltinFunction<F>>)
        requires
            old(ctx).next_id < u64::MAX,
        ensures
            r.id == old(ctx).next_id,
            r.class == old(ctx).types.builtin_function_or_method_type,
            r.value.value == self,
            r.value.module is None,
            PyContext::bumped(*old(ctx), *final(ctx)),
            old(ctx).wf() ==> final(ctx).wf(),
    {
        self.into_function().build(ctx)
    }

    /// Consumes the definition into a method-descriptor object owned by
    /// the given class.
    pub fn build_method(self, ctx: &mut PyContext, owner: ClassId) -> (r: PyObj<
        PyBuiltinMethod<F>,
    >)
        requires
            old(ctx).next_id < u64::MAX,
        ensures
            r.id == old(ctx).next_id,
            r.class == old(ctx).types.method_descriptor_type,
            r.value.value == self,
            r.value.owner == owner,
            PyContext::bumped(*old(ctx), *final(ctx)),
            old(ctx).wf() ==> final(ctx).wf(),
    {
        let class = ctx.types.method_descriptor_type;
        ctx.new_object(PyBuiltinMethod { value: self, owner }, class)
    }

    /// Consumes the definition into a method descriptor whose bound
    /// target will be the class rather than an instance, wrapped in a
    /// class-method adapter object.
    pub fn build_classmethod(self, ctx: &mut PyContext, owner: ClassId) -> (r: PyObj<
        PyClassMethod<F>,
    >)
        requires
            old(ctx).next_id < u64::MAX - 1,
        ensures
            r.id == old(ctx).next_id + 1,
            r.class == old(ctx).types.classmethod_type,
            r.value.callable.id == old(ctx).next_id,
            r.value.callable.class == old(ctx).types.method_descriptor_type,
            r.value.callable.value.value == self,
            r.value.callable.value.owner == owner,
            final(ctx).types == old(ctx).types,
            final(ctx).function_slots == old(ctx).function_slots,
            final(ctx).method_descriptor_slots == old(ctx).method_descriptor_slots,
            final(ctx).next_id == old(ctx).next_id + 2,
            old(ctx).wf() ==> final(ctx).wf(),
    {
        let method = self.build_method(ctx, owner);
        let class = ctx.types.classmethod_type;
        ctx.new_object(PyClassMethod { callable: method }, class)
    }
}

/// A plain callable of the interpreted layer: wraps a definition and an
/// optional reference to its defining module. It never binds; it
/// behaves identically wherever it is accessed.
pub struct PyBuiltinFunction<F> {
    pub value: PyFuncDef<F>,
    pub module: Option<ObjRef>,
}

impl<F> PyBuiltinFunction<F> {
    /// Attaches the defining-module reference, returning the updated
    /// wrapper.
    pub fn with_module(self, module: ObjRef) -> (r: Self)
        ensures
            r.value == self.value,
            r.module == Some(module),
    {
        PyBuiltinFunction { module: Some(module), ..self }
    }

    /// Wraps the callable into a plain-callable object of the
    /// interpreted layer.
    pub fn build(self, ctx: &mut PyContext) -> (r: PyObj<PyBuiltinFunction<F>>)
        requires
            old(ctx).next_id < u64::MAX,
        ensures
            r.id == old(ctx).next_id,
            r.class == old(ctx).types.builtin_function_or_method_type,
            r.value == self,
            PyContext::bumped(*old(ctx), *final(ctx)),
            old(ctx).wf() ==> final(ctx).wf(),
    {
        let class = ctx.types.builtin_function_or_method_type;
        ctx.new_object(self, class)
    }

    /// The stored native entry point.
    pub fn as_func(&self) -> (r: &F)
        ensures
            *r == self.value.func,
    {
        &self.value.func
    }

    /// The `__module__` attribute: the attached module, or the `None`
    /// sentinel when none was attached. Fixed at construction; nothing
    /// ever changes it afterwards.
    pub fn module(&self, ctx: &PyContext) -> (r: ObjRef)
        ensures
            self.module matches Some(m) ==> r == m,
            self.module is None ==> r == ctx.spec_none_obj(),
    {
        ctx.unwrap_or_none(self.module)
    }

    /// The `__name__` attribute, absent when the definition carries no
    /// name.
    pub fn name(&self) -> (r: &Option<String>)
        ensures
            *r == self.value.name,
    {
        &self.value.name
    }

    /// The `__doc__` attribute, absent when the definition carries no
    /// docstring.
    pub fn doc(&self) -> (r: &Option<String>)
        ensures
            *r == self.value.doc,
    {
        &self.value.doc
    }

    /// A printable description, after the name the wrapper carries.
    pub fn repr(&self) -> (r: String)
        ensures
            self.value.name matches Some(n) ==> r@ == "builtin function "@ + n@,
            self.value.name is None ==> r@ == "builtin function <unknown name>"@,
    {
        match &self.value.name {
            Some(n) => String::from_str("builtin function ").concat(n.as_str()),
            None => String::from_str("builtin function <unknown name>"),
        }
    }
}

impl<F: Fn(VmRef, FuncArgs) -> PyResult> Callable<F> for PyBuiltinFunction<F> {
    open spec fn entry(&self) -> F {
        self.value.func
    }

    fn invoke(&self, vm: VmRef, args: FuncArgs) -> (r: PyResult) {
        (self.value.func)(vm, args)
    }
}

/// A method descriptor: a callable installed into the attribute table
/// of its owning class, which manufactures bound-method objects when
/// accessed through an instance of that class. The descriptor itself is
/// stateless; binding never mutates it.
pub struct PyBuiltinMethod<F> {
    pub value: PyFuncDef<F>,
    pub owner: ClassId,
}

impl<F> PyBuiltinMethod<F> {
    /// Builds a named descriptor for the given owning class directly
    /// from a native entry point.
    pub fn new_with_name(func: F, name: String, owner: ClassId) -> (r: Self)
        ensures
            r.value.func == func,
            r.value.name == Some(name),
            r.value.doc is None,
            r.owner == owner,
    {
        PyBuiltinMethod { value: PyFuncDef { func, name: Some(name), doc: None }, owner }
    }

    /// The stored native entry point.
    pub fn as_func(&self) -> (r: &F)
        ensures
            *r == self.value.func,
    {
        &self.value.func
    }

    /// The `__name__` attribute, absent when the definition carries no
    /// name.
    pub fn name(&self) -> (r: &Option<String>)
        ensures
            *r == self.value.name,
    {
        &self.value.name
    }

    /// The `__doc__` attribute, absent when the definition carries no
    /// docstring.
    pub fn doc(&self) -> (r: &Option<String>)
        ensures
            *r == self.value.doc,
    {
        &self.value.doc
    }

    /// A printable description. A method descriptor exposes no
    /// `__module__`; it is not module-scoped.
    pub fn repr(&self) -> (r: String)
        ensures
            r@ == "method descriptor"@,
    {
        String::from_str("method descriptor")
    }
}

impl<F: Fn(VmRef, FuncArgs) -> PyResult> Callable<F> for PyBuiltinMethod<F> {
    open spec fn entry(&self) -> F {
        self.value.func
    }

    fn invoke(&self, vm: VmRef, args: FuncArgs) -> (r: PyResult) {
        (self.value.func)(vm, args)
    }
}

/// A built object is callable exactly when the wrapper it carries is,
/// forwarding to the same entry point.
impl<F: Fn(VmRef, FuncArgs) -> PyResult, T: Callable<F>> Callable<F> for PyObj<T> {
    open spec fn entry(&self) -> F {
        self.value.entry()
    }

    fn invoke(&self, vm: VmRef, args: FuncArgs) -> (r: PyResult) {
        self.value.invoke(vm, args)
    }
}

/// What a successful descriptor access yields: the descriptor object
/// itself (identified by its own object identity), or a freshly
/// allocated bound-method object.
pub enum DescrGet<F> {
    Unbound(u64),
    Bound(PyObj<PyBoundMethod<F>>),
}

/// The full outcome of `descr_get` on the descriptor object `zelf`:
/// access through an incompatible class fails with the validation
/// helper's type-mismatch error and allocates nothing; access through
/// the owning class itself yields the descriptor unchanged, unbound;
/// access through an instance of the owning class allocates a fresh
/// bound-method object pairing the descriptor's entry point with that
/// instance.
pub open spec fn descr_get_post<F>(
    zelf: PyObj<PyBuiltinMethod<F>>,
    obj: Option<ObjRef>,
    cls: Option<ClassId>,
    pre: PyContext,
    post: PyContext,
    r: Result<DescrGet<F>, PyErr>,
) -> bool {
    match spec_validate_access(zelf.value.owner, obj, cls) {
        Err(e) => r == Err::<DescrGet<F>, PyErr>(e) && post == pre,
        Ok(None) => r == Ok::<DescrGet<F>, PyErr>(DescrGet::Unbound(zelf.id)) && post == pre,
        Ok(Some(i)) => {
            &&& r matches Ok(DescrGet::Bound(b)) && {
                &&& b.id == pre.next_id
                &&& b.class == pre.types.bound_method_type
                &&& b.value.func == zelf.value.value.func
                &&& b.value.descriptor == zelf.id
                &&& b.value.target == i
            }
            &&& PyContext::bumped(pre, post)
        },
    }
}

impl<F: Fn(VmRef, FuncArgs) -> PyResult + Copy> PyObj<PyBuiltinMethod<F>> {
    /// The descriptor-get operation: resolves an attribute access on
    /// behalf of `(obj, cls)` into the descriptor itself, a fresh
    /// bound-method object, or a type-mismatch error.
    pub fn descr_get(
        zelf: &PyObj<PyBuiltinMethod<F>>,
        obj: Option<ObjRef>,
        cls: Option<ClassId>,
        ctx: &mut PyContext,
    ) -> (r: Result<DescrGet<F>, PyErr>)
        requires
            spec_validate_access(zelf.value.owner, obj, cls) matches Ok(Some(_)) ==> old(
                ctx,
            ).next_id < u64::MAX,
        ensures
            descr_get_post(*zelf, obj, cls, *old(ctx), *final(ctx), r),
    {
        let target = match validate_access(zelf.value.owner, obj, cls) {
            Ok(t) => t,
            Err(e) => {
                return Err(e);
            },
        };
        match target {
            None => Ok(DescrGet::Unbound(zelf.id)),
            Some(i) => Ok(
                DescrGet::Bound(ctx.new_bound_method(zelf.value.value.func, zelf.id, i)),
            ),
        }
    }
}

/// The class-method adapter: wraps a method-descriptor object so that
/// the bound target becomes the class rather than an instance. Its own
/// binding behaviour belongs to the broader object model; this
/// subsystem only produces it.
pub struct PyClassMethod<F> {
    pub callable: PyObj<PyBuiltinMethod<F>>,
}

/// The attribute surface of the plain-callable class: `__module__`,
/// `__name__` and `__doc__`, callable, and no descriptor behaviour.
pub open spec fn plain_callable_surface() -> ClassSlots {
    ClassSlots {
        has_module: true,
        has_name: true,
        has_doc: true,
        is_descriptor: false,
        is_callable: true,
    }
}

/// The attribute surface of the method-descriptor class: `__name__`
/// and `__doc__` but no `__module__`, callable, with descriptor
/// behaviour.
pub open spec fn method_descriptor_surface() -> ClassSlots {
    ClassSlots {
        has_module: false,
        has_name: true,
        has_doc: true,
        is_descriptor: true,
        is_callable: true,
    }
}

/// Bootstrap: installs the attribute surfaces of the two classes this
/// subsystem owns into the type registry. Pure wiring; it touches
/// nothing else in the context.
pub fn init(ctx: &mut PyContext)
    ensures
        final(ctx).function_slots == Some(plain_callable_surface()),
        final(ctx).method_descriptor_slots == Some(method_descriptor_surface()),
        final(ctx).types == old(ctx).types,
        final(ctx).next_id == old(ctx).next_id,
        old(ctx).wf() ==> final(ctx).wf(),
{
    ctx.function_slots = Some(
        ClassSlots {
            has_module: true,
            has_name: true,
            has_doc: true,
            is_descriptor: false,
            is_callable: true,
        },
    );
    ctx.method_descriptor_slots = Some(
        ClassSlots {
            has_module: false,
            has_name: true,
            has_doc: true,
            is_descriptor: true,
            is_callable: true,
        },
    );
}

/// Every wrapper consuming a definition shares that definition's entry
/// point: invocation of either wrapper forwards to exactly the native
/// function the definition was built from.
pub proof fn lemma_wrappers_share_entry<F: Fn(VmRef, FuncArgs) -> PyResult>(
    def: PyFuncDef<F>,
    f: PyBuiltinFunction<F>,
    m: PyBuiltinMethod<F>,
)
    requires
        f.value == def,
        m.value == def,
    ensures
        f.entry() == def.func,
        m.entry() == def.func,
{
}

/// Access to a descriptor through an instance of its owning class
/// succeeds and yields a bound method whose target is that instance and
/// whose entry point is the descriptor's own: invoking it forwards to
/// the same native function as invoking the descriptor would.
pub proof fn lemma_instance_access_binds<F>(
    zelf: PyObj<PyBuiltinMethod<F>>,
    i: ObjRef,
    cls: Option<ClassId>,
    pre: PyContext,
    post: PyContext,
    r: Result<DescrGet<F>, PyErr>,
)
    requires
        i.class == zelf.value.owner,
        descr_get_post(zelf, Some(i), cls, pre, post, r),
    ensures
        r matches Ok(DescrGet::Bound(b)) && {
            &&& b.value.target == i
            &&& b.value.func == zelf.value.value.func
            &&& b.value.descriptor == zelf.id
        },
{
}

/// Access to a descriptor through its owning class itself, without an
/// instance, yields the descriptor unchanged — the very same object,
/// never a bound method — and allocates nothing.
pub proof fn lemma_class_access_returns_self<F>(
    zelf: PyObj<PyBuiltinMethod<F>>,
    pre: PyContext,
    post: PyContext,
    r: Result<DescrGet<F>, PyErr>,
)
    requires
        descr_get_post(zelf, None, Some(zelf.value.owner), pre, post, r),
    ensures
        r == Ok::<DescrGet<F>, PyErr>(DescrGet::Unbound(zelf.id)),
        post == pre,
{
}

/// Access to a descriptor on behalf of an instance of an unrelated
/// class fails with the type-mismatch error naming both classes, and
/// allocates nothing.
pub proof fn lemma_foreign_instance_access_fails<F>(
    zelf: PyObj<PyBuiltinMethod<F>>,
    j: ObjRef,
    cls: Option<ClassId>,
    pre: PyContext,
    post: PyContext,
    r: Result<DescrGet<F>, PyErr>,
)
    requires
        j.class != zelf.value.owner,
        descr_get_post(zelf, Some(j), cls, pre, post, r),
    ensures
        r == Err::<DescrGet<F>, PyErr>(
            PyErr::TypeMismatch { expected: zelf.value.owner, found: Some(j.class) },
        ),
        post == pre,
{
}

/// Two successive accesses through the same instance of the owning
/// class yield two bound methods that are behaviourally equal — same
/// entry point, same target, sharing the same descriptor — yet never
/// identity-equal: each access allocates a fresh bound-method object.
pub proof fn lemma_repeated_binding_is_fresh<F>(
    zelf: PyObj<PyBuiltinMethod<F>>,
    i: ObjRef,
    cls: Option<ClassId>,
    c0: PyContext,
    c1: PyContext,
    c2: PyContext,
    r1: Result<DescrGet<F>, PyErr>,
    r2: Result<DescrGet<F>, PyErr>,
)
    requires
        i.class == zelf.value.owner,
        descr_get_post(zelf, Some(i), cls, c0, c1, r1),
        descr_get_post(zelf, Some(i), cls, c1, c2, r2),
    ensures
        r1 matches Ok(DescrGet::Bound(b1)) ==> r2 matches Ok(DescrGet::Bound(b2)) ==> {
            &&& b1.id != b2.id
            &&& b1.value.func == b2.value.func
            &&& b1.value.target == b2.value.target
            &&& b1.value.descriptor == b2.value.descriptor
        },
        r1 matches Ok(DescrGet::Bound(_)),
        r2 matches Ok(DescrGet::Bound(_)),
{
}

/// The intentional asymmetry of the two attribute surfaces: the
/// plain-callable class exposes `__module__`, the method-descriptor
/// class does not, and otherwise both expose the same attributes and
/// the same callable capability; only the descriptor behaviour also
/// differs.
pub proof fn lemma_module_surface_asymmetry()
    ensures
        plain_callable_surface().has_module,
        !method_descriptor_surface().has_module,
        plain_callable_surface().has_name == method_descriptor_surface().has_name,
        plain_callable_surface().has_doc == method_descriptor_surface().has_doc,
        plain_callable_surface().is_callable == method_descriptor_surface().is_callable,
        !plain_callable_surface().is_descriptor,
        method_descriptor_surface().is_descriptor,
{
}

} // verus!
