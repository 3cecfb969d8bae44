//! Android's permission service, reached through the Java Native Interface.
//!
//! Everything in this file that touches the Java VM is trusted, not proved:
//! the declarations name the `jni` types that are carried through, and the
//! three wrappers make the calls. What a call returns is decided by the device
//! at run time, so the wrappers promise nothing about it. What is handed to
//! the calls is fixed by [`ServiceCall::status_query`], which is proved.

use crate::permissions::Permission;
use jni::objects::{JObject, JString, JValue, JValueOwned};
use jni::JNIEnv;
use vstd::prelude::*;

verus! {

/// `jni::JNIEnv`: the calling thread's handle to the Java VM.
#[verifier::external_type_specification]
#[verifier::external_body]
pub struct ExJNIEnv<'local>(jni::JNIEnv<'local>);

/// `jni::sys::_jobject`: the Java VM's own object, which a `JObject` points
/// to. It is named here only because `JObject` dereferences to that pointer.
#[verifier::external_type_specification]
#[verifier::external_body]
pub struct ExRawObject(jni::sys::_jobject);

/// `jni::objects::JObject`: a local reference to a Java object.
#[verifier::external_type_specification]
#[verifier::external_body]
pub struct ExJObject<'local>(jni::objects::JObject<'local>);

/// `jni::objects::JString`: a local reference to a `java.lang.String`.
#[verifier::external_type_specification]
#[verifier::external_body]
pub struct ExJString<'local>(jni::objects::JString<'local>);

/// `jni::objects::JValueGen`: a value passed to or returned from a Java
/// method, either a primitive or an object reference of type `O`.
#[verifier::external_type_specification]
#[verifier::external_body]
#[verifier::reject_recursive_types(O)]
pub struct ExJValueGen<O>(jni::objects::JValueGen<O>);

/// `jni::errors::Error`: why a call into the Java VM failed.
#[verifier::external_type_specification]
#[verifier::external_body]
pub struct ExJniError(jni::errors::Error);

/// The class whose static method reports the status of a permission.
pub const CONTEXT_COMPAT_CLASS: &'static str = "androidx/core/content/ContextCompat";

/// The static method of that class that is called.
pub const CHECK_SELF_PERMISSION: &'static str = "checkSelfPermission";

/// Its type: it takes a context and a permission identifier and returns an
/// `int`.
pub const CHECK_SELF_PERMISSION_SIGNATURE: &'static str =
    "(Landroid/content/Context;Ljava/lang/String;)I";

/// Calls `JNIEnv::new_string`, which asks the Java VM for a
/// `java.lang.String` that holds `text`. Whether the VM can make the string
/// is decided at run time: nothing is claimed of the outcome.
#[verifier::external_body]
fn new_java_string<'local>(env: &JNIEnv<'local>, text: &str) -> (made: Result<
    JString<'local>,
    jni::errors::Error,
>) {
    env.new_string(text)
}

/// Whether a method type names no method type among its arguments: it has
/// no opening bracket behind the one it starts with.
pub open spec fn is_flat_signature(signature: Seq<char>) -> bool {
    forall|i: int| 0 < i < signature.len() ==> signature[i] != '('
}

/// Calls `JNIEnv::call_static_method` on the static method `name` of
/// `class`, whose type is `signature`, with the two object arguments. The VM
/// looks up class and method and runs the method at run time: nothing is
/// claimed of the outcome. The signature has to be flat, because the outside
/// function can panic on one that has a method type among its arguments.
#[verifier::external_body]
fn call_static_method<'local>(
    env: &mut JNIEnv<'local>,
    class: &str,
    name: &str,
    signature: &str,
    first: &JObject<'local>,
    second: &JString<'local>,
) -> (returned: Result<JValueOwned<'local>, jni::errors::Error>)
    requires
        is_flat_signature(signature@),
{
    env.call_static_method(class, name, signature, &[JValue::from(first), JValue::from(second)])
}

/// Calls `JValueGen::i`, which gives the `int` that a Java value holds and
/// fails on a value of any other type. The value is opaque here, so nothing
/// is claimed of the outcome.
#[verifier::external_body]
fn java_int<'local>(value: JValueOwned<'local>) -> (int: Result<i32, jni::errors::Error>) {
    value.i()
}

/// One question to the permission service, as it is handed to the Java VM:
/// the static method that is called, and the identifier of the permission
/// that is asked about.
pub struct ServiceCall {
    pub class: &'static str,
    pub method: &'static str,
    pub signature: &'static str,
    pub permission: &'static str,
}

impl ServiceCall {
    /// The call that asks for the status of `permission`:
    /// `ContextCompat.checkSelfPermission(context, identifier)`.
    pub fn status_query(permission: Permission) -> (call: ServiceCall)
        ensures
            call.class@ == CONTEXT_COMPAT_CLASS@,
            call.method@ == CHECK_SELF_PERMISSION@,
            call.signature@ == CHECK_SELF_PERMISSION_SIGNATURE@,
            call.permission@ == permission.spec_identifier(),
            is_flat_signature(call.signature@),
    {
        proof {
            reveal_strlit("(Landroid/content/Context;Ljava/lang/String;)I");
        }
        ServiceCall {
            class: CONTEXT_COMPAT_CLASS,
            method: CHECK_SELF_PERMISSION,
            signature: CHECK_SELF_PERMISSION_SIGNATURE,
            permission: permission.identifier(),
        }
    }
}

/// The handles through which a running Android application reaches the
/// permission service: the thread's JNI environment and the application's
/// context.
pub struct PermissionService<'local> {
    pub env: JNIEnv<'local>,
    pub context: JObject<'local>,
}

impl<'local> PermissionService<'local> {
    /// Asks the service for the status of one permission, with the call that
    /// `ServiceCall::status_query` gives and the context as its first
    /// argument. `Ok` holds the status that the service reports, `Err` the
    /// reason why it could not be asked. Which of them comes back is decided
    /// by the device.
    pub(crate) fn status_of(&mut self, permission: Permission) -> (status: Result<
        i32,
        jni::errors::Error,
    >) {
        let call = ServiceCall::status_query(permission);
        let identifier = match new_java_string(&self.env, call.permission) {
            Ok(identifier) => identifier,
            Err(error) => return Err(error),
        };
        let returned = call_static_method(
            &mut self.env,
            call.class,
            call.method,
            call.signature,
            &self.context,
            &identifier,
        );
        match returned {
            Ok(value) => java_int(value),
            Err(error) => Err(error),
        }
    }
}

} // verus!
