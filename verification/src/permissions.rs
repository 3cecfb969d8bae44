//! The check of the camera and microphone permissions.
//!
//! The check is a small state machine, [`PermissionCheck`]: it either waits
//! for the status of one permission or has decided. What it decides, and
//! which permissions it asks for on the way, is proved here for every status
//! that a permission service can report. [`check_and_request_permissions`]
//! drives the machine against the service of a running application.

use crate::android::PermissionService;
use crate::platform::Platform;
use vstd::prelude::*;

verus! {

/// The status with which the permission service reports a granted
/// permission. Every other status is a denial.
pub const PERMISSION_GRANTED: i32 = 0;

/// Whether `status` reports a granted permission.
pub open spec fn spec_is_granted(status: i32) -> bool {
    status == PERMISSION_GRANTED
}

/// Whether `status` reports a granted permission.
#[verifier::when_used_as_spec(spec_is_granted)]
pub fn is_granted(status: i32) -> (granted: bool)
    ensures
        granted == spec_is_granted(status),
{
    status == PERMISSION_GRANTED
}

/// The permissions that the application needs, in the order in which they
/// are checked.
#[derive(Clone, Copy, Debug, PartialEq, Eq, Structural)]
pub enum Permission {
    Camera,
    Microphone,
}

impl Permission {
    /// The identifier under which Android knows the permission.
    pub open spec fn spec_identifier(self) -> Seq<char> {
        match self {
            Permission::Camera => "android.permission.CAMERA"@,
            Permission::Microphone => "android.permission.RECORD_AUDIO"@,
        }
    }

    /// The permission that is checked once this one is granted, if any.
    pub open spec fn spec_next(self) -> Option<Permission> {
        match self {
            Permission::Camera => Some(Permission::Microphone),
            Permission::Microphone => None,
        }
    }

    /// The identifier under which Android knows the permission.
    pub fn identifier(self) -> (identifier: &'static str)
        ensures
            identifier@ == self.spec_identifier(),
    {
        match self {
            Permission::Camera => "android.permission.CAMERA",
            Permission::Microphone => "android.permission.RECORD_AUDIO",
        }
    }

    /// The permission that is checked once this one is granted, if any.
    #[verifier::when_used_as_spec(spec_next)]
    pub fn next(self) -> (next: Option<Permission>)
        ensures
            next == self.spec_next(),
    {
        match self {
            Permission::Camera => Some(Permission::Microphone),
            Permission::Microphone => None,
        }
    }
}

/// Why the permissions could not be checked.
#[derive(Debug)]
pub enum PermissionError {
    /// The platform has a permission service, but the handles to reach it
    /// were not there.
    RuntimeUnavailable,
    /// The permission service could not be asked; the cause is kept.
    QueryFailed(jni::errors::Error),
}

/// The state of a check: waiting for the status of one permission, or done.
#[derive(Clone, Copy, Debug, PartialEq, Eq, Structural)]
pub enum PermissionCheck {
    /// The status of this permission is to be asked for next.
    Awaiting(Permission),
    /// The check is over, with this answer. Nothing is asked any more.
    Decided(bool),
}

impl PermissionCheck {
    /// Where a check begins. With a permission service the first permission
    /// is asked for; without one the answer is yes from the start.
    pub open spec fn spec_start(platform: Platform) -> PermissionCheck {
        if platform.spec_has_permission_service() {
            PermissionCheck::Awaiting(Permission::Camera)
        } else {
            PermissionCheck::Decided(true)
        }
    }

    /// The state after the service has reported `status` for the awaited
    /// permission. A denial decides the check at once; a grant moves on to
    /// the next permission, or decides the check when there is none. A
    /// decided check stays as it is.
    pub open spec fn spec_observe(self, status: i32) -> PermissionCheck {
        match self {
            PermissionCheck::Awaiting(permission) => {
                if !spec_is_granted(status) {
                    PermissionCheck::Decided(false)
                } else {
                    match permission.spec_next() {
                        Some(next) => PermissionCheck::Awaiting(next),
                        None => PermissionCheck::Decided(true),
                    }
                }
            },
            PermissionCheck::Decided(answer) => PermissionCheck::Decided(answer),
        }
    }

    /// The state after the statuses have been reported one after another.
    pub open spec fn after(self, statuses: Seq<i32>) -> PermissionCheck
        decreases statuses.len(),
    {
        if statuses.len() == 0 {
            self
        } else {
            self.spec_observe(statuses[0]).after(statuses.drop_first())
        }
    }

    /// The permissions that the check asks for, in order, when the service
    /// answers the first query with `statuses[0]`, the second with
    /// `statuses[1]`, and so on, and answers as long as it is asked.
    pub open spec fn queries(self, statuses: Seq<i32>) -> Seq<Permission>
        decreases statuses.len(),
    {
        match self {
            PermissionCheck::Decided(_) => Seq::empty(),
            PermissionCheck::Awaiting(permission) => {
                if statuses.len() == 0 {
                    seq![permission]
                } else {
                    seq![permission] + self.spec_observe(statuses[0]).queries(
                        statuses.drop_first(),
                    )
                }
            },
        }
    }

    /// How many queries the check can still make.
    pub open spec fn queries_left(self) -> nat {
        match self {
            PermissionCheck::Awaiting(Permission::Camera) => 2,
            PermissionCheck::Awaiting(Permission::Microphone) => 1,
            PermissionCheck::Decided(_) => 0,
        }
    }

    /// Begins a check on `platform`.
    pub fn start(platform: Platform) -> (check: PermissionCheck)
        ensures
            check == PermissionCheck::spec_start(platform),
    {
        if platform.has_permission_service() {
            PermissionCheck::Awaiting(Permission::Camera)
        } else {
            PermissionCheck::Decided(true)
        }
    }

    /// Takes in the status that the service reported for the awaited
    /// permission.
    pub fn observe(self, status: i32) -> (check: PermissionCheck)
        ensures
            check == self.spec_observe(status),
    {
        match self {
            PermissionCheck::Awaiting(permission) => {
                if !is_granted(status) {
                    PermissionCheck::Decided(false)
                } else {
                    match permission.next() {
                        Some(next) => PermissionCheck::Awaiting(next),
                        None => PermissionCheck::Decided(true),
                    }
                }
            },
            PermissionCheck::Decided(answer) => PermissionCheck::Decided(answer),
        }
    }

    /// Takes in what came back from asking the service: a reported status
    /// moves the check on as `observe` says, a failure ends it with
    /// `QueryFailed`, which keeps the cause.
    pub fn on_report(self, report: Result<i32, jni::errors::Error>) -> (moved: Result<
        PermissionCheck,
        PermissionError,
    >)
        ensures
            match report {
                Ok(status) => moved == Ok::<PermissionCheck, PermissionError>(
                    self.spec_observe(status),
                ),
                Err(cause) => moved == Err::<PermissionCheck, PermissionError>(
                    PermissionError::QueryFailed(cause),
                ),
            },
    {
        match report {
            Ok(status) => Ok(self.observe(status)),
            Err(cause) => Err(PermissionError::QueryFailed(cause)),
        }
    }
}

/// The answer of a whole check on which the service would report `camera`
/// for the camera and `microphone` for the microphone: yes where there is no
/// service to ask, and else only if both are granted.
pub open spec fn permissions_granted(platform: Platform, camera: i32, microphone: i32) -> bool {
    platform.spec_has_permission_service() ==> spec_is_granted(camera) && spec_is_granted(
        microphone,
    )
}

/// The permissions that such a check asks for: none without a service, and
/// else the camera, and the microphone only if the camera is granted.
pub open spec fn permissions_queried(platform: Platform, camera: i32) -> Seq<Permission> {
    if !platform.spec_has_permission_service() {
        Seq::empty()
    } else if spec_is_granted(camera) {
        seq![Permission::Camera, Permission::Microphone]
    } else {
        seq![Permission::Camera]
    }
}

/// Tells whether camera and microphone may be used. Permissions are only
/// checked, never requested.
///
/// On a platform without a permission service the answer is yes, whatever
/// `service` holds: nothing is asked. On Android the camera is asked for
/// first and the microphone only if the camera is granted; the first denial
/// makes the answer no. Android without `service` is `RuntimeUnavailable`,
/// and a query that fails is `QueryFailed`.
pub fn check_and_request_permissions(
    platform: Platform,
    service: Option<PermissionService<'_>>,
) -> (answer: Result<bool, PermissionError>)
    ensures
        !platform.spec_has_permission_service() ==> answer == Ok::<bool, PermissionError>(true),
        !platform.spec_is_mobile() ==> answer == Ok::<bool, PermissionError>(true),
        platform.spec_has_permission_service() && service is None ==> answer == Err::<
            bool,
            PermissionError,
        >(PermissionError::RuntimeUnavailable),
        platform.spec_has_permission_service() && service is Some ==> answer is Ok || (answer is Err
            && answer->Err_0 is QueryFailed),
{
    let mut check = PermissionCheck::start(platform);
    if let PermissionCheck::Decided(answer) = check {
        return Ok(answer);
    }
    let mut reached = match service {
        Some(reached) => reached,
        None => return Err(PermissionError::RuntimeUnavailable),
    };
    loop
        invariant
            platform.spec_has_permission_service(),
            service is Some,
        decreases check.queries_left(),
    {
        match check {
            PermissionCheck::Decided(answer) => return Ok(answer),
            PermissionCheck::Awaiting(permission) => {
                let report = reached.status_of(permission);
                match check.on_report(report) {
                    Ok(moved) => check = moved,
                    Err(error) => return Err(error),
                }
            },
        }
    }
}

/// A check that is fed the statuses of camera and microphone decides as
/// `permissions_granted` says: yes if both are granted or there is no
/// service, no if either is denied.
pub proof fn lemma_check_decides(platform: Platform, camera: i32, microphone: i32)
    ensures
        PermissionCheck::spec_start(platform).after(seq![camera, microphone])
            == PermissionCheck::Decided(permissions_granted(platform, camera, microphone)),
{
    let statuses = seq![camera, microphone];
    let start = PermissionCheck::spec_start(platform);
    assert(statuses.drop_first() == seq![microphone]);
    assert(statuses.drop_first().drop_first() == Seq::<i32>::empty());
    reveal_with_fuel(PermissionCheck::after, 3);
    assert(start.after(statuses) == start.spec_observe(camera).spec_observe(microphone));
}

/// The check asks for exactly the permissions that `permissions_queried`
/// names: none without a service, and else the camera, and the microphone
/// only behind a granted camera.
pub proof fn lemma_check_queries(platform: Platform, camera: i32, microphone: i32)
    ensures
        PermissionCheck::spec_start(platform).queries(seq![camera, microphone])
            == permissions_queried(platform, camera),
{
    let statuses = seq![camera, microphone];
    let start = PermissionCheck::spec_start(platform);
    assert(statuses.drop_first() == seq![microphone]);
    assert(statuses.drop_first().drop_first() == Seq::<i32>::empty());
    reveal_with_fuel(PermissionCheck::queries, 3);
    assert(start.queries(statuses) =~= permissions_queried(platform, camera));
}

/// A denied camera ends the check: the answer is no, and the microphone is
/// never asked for, whatever the service would go on to report.
pub proof fn lemma_denial_ends_check(platform: Platform, statuses: Seq<i32>)
    requires
        platform.spec_has_permission_service(),
        statuses.len() > 0,
        !spec_is_granted(statuses[0]),
    ensures
        PermissionCheck::spec_start(platform).after(statuses) == PermissionCheck::Decided(false),
        PermissionCheck::spec_start(platform).queries(statuses) == seq![Permission::Camera],
        !PermissionCheck::spec_start(platform).queries(statuses).contains(Permission::Microphone),
{
    lemma_decided_is_final(false, statuses.drop_first());
    assert(PermissionCheck::spec_start(platform).queries(statuses) =~= seq![Permission::Camera]);
}

/// A decided check is final: whatever is reported afterwards, its answer
/// stays and it asks for nothing.
pub proof fn lemma_decided_is_final(answer: bool, statuses: Seq<i32>)
    ensures
        PermissionCheck::Decided(answer).after(statuses) == PermissionCheck::Decided(answer),
        PermissionCheck::Decided(answer).queries(statuses) == Seq::<Permission>::empty(),
    decreases statuses.len(),
{
    if statuses.len() > 0 {
        lemma_decided_is_final(answer, statuses.drop_first());
    }
}

/// Without a permission service the answer is yes and nothing is asked, for
/// every number of reports and whatever they hold.
pub proof fn lemma_no_service_always_granted(platform: Platform, statuses: Seq<i32>)
    requires
        !platform.spec_has_permission_service(),
    ensures
        PermissionCheck::spec_start(platform).after(statuses) == PermissionCheck::Decided(true),
        PermissionCheck::spec_start(platform).queries(statuses) == Seq::<Permission>::empty(),
{
    lemma_decided_is_final(true, statuses);
}

/// Every status takes a waiting check one query closer to its end, so a
/// check is decided after two reports at the latest.
pub proof fn lemma_observe_makes_progress(check: PermissionCheck, status: i32)
    requires
        check is Awaiting,
    ensures
        check.spec_observe(status).queries_left() < check.queries_left(),
        check.queries_left() <= 2,
{
}

} // verus!
