//! Planning and running a signing pass over the binaries of a bundle.
//!
//! A bundle's signature covers the signatures of what is nested in it, so
//! nested binaries are signed before the bundle that embeds them. The
//! list of targets comes innermost first; a list in any other order is
//! refused before a single target is touched.
//!
//! The pass itself writes to disk, which is the caller's business. The
//! signer prepares the signing context and the plan; the caller signs the
//! target the pass names, reports how that went, and asks for the next.
//! The first failure ends the pass.

use crate::certificate::{chain_labels, expiry_warnings, strings_view, Certificate, Warning};
use crate::errors::{Error, ErrorView, TargetFailure, TargetFailureView};
use crate::provision::{xml_plist_bytes, MobileProvision};
use crate::signing::context::{
    apple_ca_chain, certificate_team_id, finish_key, new_signing_settings, new_unified_signer, set_for_notarization,
    set_shallow, set_team_id_from_signing_certificate, settings_view, signer_view, ContextView,
};
use crate::signing::signer_settings::{SignerMode, SignerSettings};
use vstd::prelude::*;
use vstd::string::StrSliceExecFns;
use vstd::utf8::encode_utf8;

verus! {

/// What a target is.
#[derive(Debug, Clone, Copy, PartialEq, Eq, Structural)]
pub enum TargetKind {
    /// A loose executable or library.
    Executable,
    /// A framework bundle.
    Framework,
    /// An app extension bundle.
    AppExtension,
    /// The main application bundle.
    Application,
}

/// One path to sign.
#[derive(Debug, Clone, PartialEq, Eq)]
pub struct SigningTarget {
    pub path: String,
    pub kind: TargetKind,
    /// How deep the target is nested; the main application has depth 0.
    pub depth: usize,
    /// The entitlements resolved for the target itself, as an XML
    /// property list, if any were.
    pub entitlements: Option<Vec<u8>>,
    /// The path of the provisioning profile of the target itself, if it
    /// has one.
    pub profile: Option<String>,
}

/// A target with its text and bytes as sequences.
pub struct TargetView {
    pub path: Seq<char>,
    pub kind: TargetKind,
    pub depth: nat,
    pub entitlements: Option<Seq<u8>>,
    pub profile: Option<Seq<char>>,
}

/// The provisioning material of a target: its entitlements and the path
/// of its provisioning profile.
pub struct Provisioning {
    pub entitlements: Option<Seq<u8>>,
    pub profile: Option<Seq<char>>,
}

/// An optional byte string as an optional sequence of bytes.
pub open spec fn bytes_view(bytes: Option<Vec<u8>>) -> Option<Seq<u8>> {
    match bytes {
        Some(bytes) => Some(bytes@),
        None => None,
    }
}

/// An optional text as an optional sequence of characters.
pub open spec fn path_view(path: Option<String>) -> Option<Seq<char>> {
    match path {
        Some(path) => Some(path@),
        None => None,
    }
}

impl View for SigningTarget {
    type V = TargetView;

    open spec fn view(&self) -> TargetView {
        TargetView {
            path: self.path@,
            kind: self.kind,
            depth: self.depth as nat,
            entitlements: bytes_view(self.entitlements),
            profile: path_view(self.profile),
        }
    }
}

impl TargetView {
    /// The provisioning material of the target itself.
    pub open spec fn provisioning(self) -> Provisioning {
        Provisioning { entitlements: self.entitlements, profile: self.profile }
    }
}

/// The entitlements a binary already carries, as the bytes of their
/// text, given what reading them gave. A binary whose entitlements could
/// not be read counts as carrying none.
pub open spec fn carried_entitlements(existing: Result<Option<String>, Error>) -> Option<Seq<u8>> {
    match existing {
        Ok(Some(text)) => Some(encode_utf8(text@)),
        _ => None,
    }
}

impl SigningTarget {
    /// A target with its provisioning resolved. An application or an app
    /// extension for which a provisioning profile is given takes the
    /// profile's entitlements and the profile itself; it fails where the
    /// profile's entitlements cannot be written out. Every other target
    /// keeps the entitlements its binary already carries, as reading them
    /// gave, and has no profile.
    pub fn resolved(
        path: String,
        kind: TargetKind,
        depth: usize,
        existing: Result<Option<String>, Error>,
        profile: Option<&MobileProvision>,
    ) -> (r: Result<SigningTarget, Error>)
        ensures
            match profile {
                Some(profile) if needs_entitlements(kind) => match xml_plist_bytes(
                    profile.entitlements(),
                ) {
                    Ok(bytes) => r matches Ok(target) && target@ == (TargetView {
                        path: path@,
                        kind,
                        depth: depth as nat,
                        entitlements: Some(bytes),
                        profile: Some(profile.path()),
                    }),
                    Err(message) => r matches Err(error) && error@
                        == ErrorView::MalformedProfile(message),
                },
                _ => r matches Ok(target) && target@ == (TargetView {
                    path: path@,
                    kind,
                    depth: depth as nat,
                    entitlements: carried_entitlements(existing),
                    profile: None,
                }),
            },
    {
        let bundle = match kind {
            TargetKind::Application => true,
            TargetKind::AppExtension => true,
            _ => false,
        };
        match profile {
            Some(profile) if bundle => {
                let entitlements = match profile.get_entitlements_as_bytes() {
                    Ok(bytes) => bytes,
                    Err(error) => return Err(error),
                };
                Ok(
                    SigningTarget {
                        path,
                        kind,
                        depth,
                        entitlements: Some(entitlements),
                        profile: Some(profile.get_file_path().clone()),
                    },
                )
            },
            _ => {
                let entitlements = match &existing {
                    Ok(Some(text)) => Some(text.as_str().as_bytes_vec()),
                    _ => None,
                };
                Ok(SigningTarget { path, kind, depth, entitlements, profile: None })
            },
        }
    }
}

/// The targets of a list.
pub open spec fn targets_view(targets: Seq<SigningTarget>) -> Seq<TargetView> {
    Seq::new(targets.len(), |i: int| targets[i]@)
}

/// One step of a signing pass: a path, the entitlements to sign it with,
/// and the provisioning profile to embed in it.
#[derive(Debug, Clone, PartialEq, Eq)]
pub struct PlannedTarget {
    pub path: String,
    pub entitlements: Option<Vec<u8>>,
    pub profile: Option<String>,
}

/// A step with its text and bytes as sequences.
pub struct StepView {
    pub path: Seq<char>,
    pub entitlements: Option<Seq<u8>>,
    pub profile: Option<Seq<char>>,
}

impl View for PlannedTarget {
    type V = StepView;

    open spec fn view(&self) -> StepView {
        StepView {
            path: self.path@,
            entitlements: bytes_view(self.entitlements),
            profile: path_view(self.profile),
        }
    }
}

/// The steps of a list.
pub open spec fn steps_view(steps: Seq<PlannedTarget>) -> Seq<StepView> {
    Seq::new(steps.len(), |i: int| steps[i]@)
}

/// The provisioning material of no application at all.
pub open spec fn no_provisioning() -> Provisioning {
    Provisioning { entitlements: None, profile: None }
}

/// The provisioning material of the main application: that of the last
/// application among the first `count` targets, none where there is no
/// application among them.
pub open spec fn main_provisioning(targets: Seq<TargetView>, count: nat) -> Provisioning
    decreases count,
{
    if count == 0 {
        no_provisioning()
    } else if targets[count - 1].kind == TargetKind::Application {
        targets[count - 1].provisioning()
    } else {
        main_provisioning(targets, (count - 1) as nat)
    }
}

/// The provisioning material a target is signed with. An app extension
/// takes that of the main application where extensions share the
/// application's provisioning; every other target, and every target
/// otherwise, takes its own.
pub open spec fn planned_provisioning(
    target: TargetView,
    mode: SignerMode,
    main: Provisioning,
) -> Provisioning {
    if mode == SignerMode::Zsign && target.kind == TargetKind::AppExtension {
        main
    } else {
        target.provisioning()
    }
}

/// A target that cannot be signed with an identity unless it carries
/// entitlements: an application or an app extension.
pub open spec fn needs_entitlements(kind: TargetKind) -> bool {
    kind == TargetKind::Application || kind == TargetKind::AppExtension
}

/// The step planned for a target.
pub open spec fn planned_step(target: TargetView, mode: SignerMode, main: Provisioning) -> StepView {
    let provisioning = planned_provisioning(target, mode, main);
    StepView {
        path: target.path,
        entitlements: provisioning.entitlements,
        profile: provisioning.profile,
    }
}

/// The plan for a list of targets: one step for each, in the order of the
/// list.
pub open spec fn planned(targets: Seq<TargetView>, mode: SignerMode) -> Seq<StepView> {
    Seq::new(
        targets.len(),
        |i: int| planned_step(targets[i], mode, main_provisioning(targets, targets.len())),
    )
}

/// The targets come innermost first: no target is nested deeper than one
/// that stands before it.
pub open spec fn innermost_first(targets: Seq<TargetView>) -> bool {
    forall|i: int, j: int| 0 <= i < j < targets.len() ==> targets[i].depth >= targets[j].depth
}

/// Why the target at `index` cannot be planned, if it cannot: it is
/// nested deeper than the target before it, or it is signed with an
/// identity, needs entitlements and gets none.
pub open spec fn target_failure(
    targets: Seq<TargetView>,
    mode: SignerMode,
    signed: bool,
    index: int,
) -> Option<TargetFailureView> {
    if index > 0 && targets[index - 1].depth < targets[index].depth {
        Some(TargetFailureView::OutOfOrder)
    } else if signed && needs_entitlements(targets[index].kind) && planned_provisioning(
        targets[index],
        mode,
        main_provisioning(targets, targets.len()),
    ).entitlements is None {
        Some(TargetFailureView::EntitlementsMissing)
    } else {
        None
    }
}

/// The failure of the first target among the first `count` that cannot be
/// planned.
pub open spec fn first_plan_failure(
    targets: Seq<TargetView>,
    mode: SignerMode,
    signed: bool,
    count: nat,
) -> Option<ErrorView>
    decreases count,
{
    if count == 0 {
        None
    } else {
        match first_plan_failure(targets, mode, signed, (count - 1) as nat) {
            Some(error) => Some(error),
            None => match target_failure(targets, mode, signed, count - 1) {
                Some(cause) => Some(
                    ErrorView::TargetSign { target: targets[count - 1].path, cause },
                ),
                None => None,
            },
        }
    }
}

/// A signing pass in progress.
pub struct SigningPass<'a> {
    context: apple_codesign::SigningSettings<'a>,
    signer: apple_codesign::UnifiedSigner<'a>,
    key: Option<&'a apple_codesign::cryptography::InMemoryPrivateKey>,
    plan: Vec<PlannedTarget>,
    position: usize,
    failed: bool,
    warnings: Vec<Warning>,
    chained: Vec<String>,
}

/// What is left of a pass once it has come to its end.
#[derive(Debug, Clone)]
pub struct SignReport {
    /// Warnings that did not stop signing.
    pub warnings: Vec<Warning>,
    /// The name of each Apple CA certificate that was added to the chain.
    pub chained: Vec<String>,
    /// The number of targets that were signed.
    pub signed: usize,
}

impl<'a> SigningPass<'a> {
    #[verifier::type_invariant]
    spec fn consistent(self) -> bool {
        &&& self.position <= self.plan@.len()
        &&& settings_view(self.context) == signer_view(self.signer)
    }

    /// The steps of the pass, in the order they are taken.
    pub closed spec fn plan(&self) -> Seq<StepView> {
        steps_view(self.plan@)
    }

    /// The number of steps already signed.
    pub closed spec fn position(&self) -> nat {
        self.position as nat
    }

    /// Whether a step has failed.
    pub closed spec fn failed(&self) -> bool {
        self.failed
    }

    /// The context the code signer works under.
    pub closed spec fn context(&self) -> ContextView {
        signer_view(self.signer)
    }

    /// The warnings gathered while the identity was attached.
    pub closed spec fn warnings(&self) -> Seq<Warning> {
        self.warnings@
    }

    /// The names of the CA certificates added to the chain.
    pub closed spec fn chained(&self) -> Seq<Seq<char>> {
        strings_view(self.chained@)
    }

    /// A step is waiting to be signed: nothing has failed, and not every
    /// step has been signed.
    pub open spec fn pending(&self) -> bool {
        !self.failed() && self.position() < self.plan().len()
    }

    /// The code signer to sign the steps with.
    pub fn signer(&self) -> (r: &apple_codesign::UnifiedSigner<'a>)
        ensures
            signer_view(*r) == self.context(),
    {
        &self.signer
    }

    /// The settings the code signer is bound to, for a caller that signs a
    /// step under settings of its own, made from these.
    pub fn settings(&self) -> (r: &apple_codesign::SigningSettings<'a>)
        ensures
            settings_view(*r) == self.context(),
    {
        proof {
            use_type_invariant(self);
        }
        &self.context
    }

    /// The step to sign next, if one is waiting.
    pub fn next_target(&self) -> (r: Option<&PlannedTarget>)
        ensures
            match r {
                Some(step) => self.pending() && step@ == self.plan()[self.position() as int],
                None => !self.pending(),
            },
    {
        proof {
            use_type_invariant(self);
        }
        if self.failed || self.position >= self.plan.len() {
            None
        } else {
            Some(&self.plan[self.position])
        }
    }

    /// Takes note of how signing the waiting step went. After a success
    /// the next step waits. A failure, given as the signer's message, ends
    /// the pass: no step waits any more, and the failing target is
    /// reported. With no step waiting, nothing changes.
    pub fn record(&mut self, outcome: Result<(), String>) -> (r: Result<(), Error>)
        ensures
            final(self).plan() == old(self).plan(),
            final(self).context() == old(self).context(),
            final(self).warnings() == old(self).warnings(),
            final(self).chained() == old(self).chained(),
            !old(self).pending() ==> r is Ok && final(self).position() == old(self).position()
                && final(self).failed() == old(self).failed(),
            old(self).pending() ==> match outcome {
                Ok(()) => {
                    &&& r is Ok
                    &&& final(self).position() == old(self).position() + 1
                    &&& !final(self).failed()
                },
                Err(message) => {
                    &&& final(self).position() == old(self).position()
                    &&& final(self).failed()
                    &&& r matches Err(error) && error@ == (ErrorView::TargetSign {
                        target: old(self).plan()[old(self).position() as int].path,
                        cause: TargetFailureView::Signing(message@),
                    })
                },
            },
    {
        proof {
            use_type_invariant(&*self);
        }
        if self.failed || self.position >= self.plan.len() {
            return Ok(());
        }
        match outcome {
            Ok(()) => {
                self.position = self.position + 1;
                Ok(())
            },
            Err(message) => {
                self.failed = true;
                let target = self.plan[self.position].path.clone();
                Err(Error::TargetSign { target, cause: TargetFailure::Signing(message) })
            },
        }
    }

    /// Whether every step has been signed.
    pub fn is_complete(&self) -> (r: bool)
        ensures
            r == (!self.failed() && self.position() == self.plan().len()),
    {
        proof {
            use_type_invariant(self);
        }
        !self.failed && self.position == self.plan.len()
    }

    /// Ends the pass: releases the private key and hands out what the pass
    /// has to report.
    pub fn finish(self) -> (r: SignReport)
        ensures
            r.warnings@ == self.warnings(),
            strings_view(r.chained@) == self.chained(),
            r.signed == self.position(),
    {
        if let Some(key) = self.key {
            let _released = finish_key(key);
        }
        SignReport { warnings: self.warnings, chained: self.chained, signed: self.position }
    }
}

/// A signing session: an identity, if there is one, and the policy.
pub struct Signer {
    certificate: Option<Certificate>,
    settings: SignerSettings,
}

impl Signer {
    /// The identity of the session.
    pub closed spec fn certificate(&self) -> Option<Certificate> {
        self.certificate
    }

    /// The policy of the session.
    pub closed spec fn settings(&self) -> SignerSettings {
        self.settings
    }

    /// Whether the session signs with an identity; without one it signs
    /// ad hoc.
    pub open spec fn signs_with_identity(&self) -> bool {
        self.certificate() is Some
    }

    /// The failure that stops the session before the first target, if one
    /// does: an identity that lacks its certificate or its key, or else
    /// the first target that cannot be planned.
    pub open spec fn refusal(&self, targets: Seq<TargetView>) -> Option<ErrorView> {
        if self.certificate() matches Some(identity) && !identity.complete() {
            Some(ErrorView::MissingCertificate)
        } else {
            first_plan_failure(
                targets,
                self.settings().sign_mode,
                self.signs_with_identity(),
                targets.len(),
            )
        }
    }

    /// The context the session signs under: its identity (the key, the
    /// certificate, the team identifier the certificate carries) with the
    /// Apple CA certificates that complete its chain, nested content
    /// signed or not as the policy says, and notarization rules off.
    pub open spec fn signing_context(&self) -> ContextView {
        ContextView {
            key: match self.certificate() {
                Some(identity) => Some(identity@.key->0.key),
                None => None,
            },
            identity: match self.certificate() {
                Some(identity) => identity@.cert,
                None => None,
            },
            team_id: match self.certificate() {
                Some(identity) => certificate_team_id(identity@.cert->0),
                None => None,
            },
            chain: match self.certificate() {
                Some(identity) => apple_ca_chain(identity@.cert->0),
                None => Seq::empty(),
            },
            shallow: self.settings().sign_shallow,
            for_notarization: false,
        }
    }

    /// A session with an identity, or without one for ad-hoc signing.
    pub fn new(certificate: Option<Certificate>, settings: SignerSettings) -> (r: Self)
        ensures
            r.certificate() == certificate,
            r.settings() == settings,
    {
        Signer { certificate, settings }
    }

    /// Prepares a signing pass over `targets` at the time `now`, in
    /// seconds since the epoch. The pass starts before its first step.
    /// Nothing is prepared where the identity is incomplete or a target
    /// cannot be planned.
    pub fn sign<'a>(&'a self, targets: Vec<SigningTarget>, now: i64) -> (r: Result<
        SigningPass<'a>,
        Error,
    >)
        ensures
            match r {
                Err(error) => self.refusal(targets_view(targets@)) == Some(error@),
                Ok(pass) => {
                    &&& self.refusal(targets_view(targets@)) is None
                    &&& innermost_first(targets_view(targets@))
                    &&& pass.plan() == planned(targets_view(targets@), self.settings().sign_mode)
                    &&& pass.position() == 0
                    &&& !pass.failed()
                    &&& pass.context() == self.signing_context()
                    &&& match self.certificate() {
                        Some(identity) => pass.warnings() == expiry_warnings(
                            identity@.cert->0,
                            now,
                        ) && pass.chained() == chain_labels(
                            apple_ca_chain(identity@.cert->0),
                        ),
                        None => pass.warnings().len() == 0 && pass.chained().len() == 0,
                    }
                },
            },
    {
        let mut context = new_signing_settings();
        let mut warnings: Vec<Warning> = Vec::new();
        let mut chained: Vec<String> = Vec::new();
        let mut key: Option<&'a apple_codesign::cryptography::InMemoryPrivateKey> = None;
        if let Some(identity) = &self.certificate {
            match identity.load_into_signing_settings(&mut context, now) {
                Ok(report) => {
                    warnings = report.warnings;
                    chained = report.chained;
                },
                Err(error) => return Err(error),
            }
            if let Some(held) = &identity.key {
                key = Some(held.signer());
            }
        }
        set_team_id_from_signing_certificate(&mut context);
        set_shallow(&mut context, self.settings.sign_shallow);
        set_for_notarization(&mut context, false);
        let plan = match plan_targets(&targets, self.settings.sign_mode, self.certificate.is_some()) {
            Ok(plan) => plan,
            Err(error) => return Err(error),
        };
        let signer = new_unified_signer(context.clone());
        Ok(
            SigningPass {
                context,
                signer,
                key,
                plan,
                position: 0,
                failed: false,
                warnings,
                chained,
            },
        )
    }
}

/// The position of the main application among the targets: that of the
/// last application, if there is one.
pub fn find_main_application(targets: &Vec<SigningTarget>) -> (r: Option<usize>)
    ensures
        match r {
            Some(index) => index < targets@.len() && targets@[index as int].kind
                == TargetKind::Application && main_provisioning(
                targets_view(targets@),
                targets@.len(),
            ) == targets@[index as int]@.provisioning(),
            None => main_provisioning(targets_view(targets@), targets@.len())
                == no_provisioning(),
        },
{
    let mut count: usize = targets.len();
    while count > 0
        invariant
            count <= targets@.len(),
            main_provisioning(targets_view(targets@), targets@.len()) == main_provisioning(
                targets_view(targets@),
                count as nat,
            ),
        decreases count,
    {
        match targets[count - 1].kind {
            TargetKind::Application => {
                return Some(count - 1);
            },
            _ => {},
        }
        count -= 1;
    }
    None
}

/// A copy of an optional byte string.
fn copy_bytes(bytes: &Option<Vec<u8>>) -> (r: Option<Vec<u8>>)
    ensures
        bytes_view(r) == bytes_view(*bytes),
{
    match bytes {
        Some(bytes) => Some(bytes.clone()),
        None => None,
    }
}

/// A copy of an optional text.
fn copy_path(path: &Option<String>) -> (r: Option<String>)
    ensures
        path_view(r) == path_view(*path),
{
    match path {
        Some(path) => Some(path.clone()),
        None => None,
    }
}

/// Plans the pass over a list of targets: checks that they come innermost
/// first, resolves the entitlements of each, and refuses a target that
/// needs entitlements for signing with an identity and has none.
pub fn plan_targets(targets: &Vec<SigningTarget>, mode: SignerMode, signed: bool) -> (r: Result<
    Vec<PlannedTarget>,
    Error,
>)
    ensures
        match r {
            Ok(plan) => {
                &&& first_plan_failure(targets_view(targets@), mode, signed, targets@.len())
                    is None
                &&& innermost_first(targets_view(targets@))
                &&& steps_view(plan@) == planned(targets_view(targets@), mode)
            },
            Err(error) => first_plan_failure(targets_view(targets@), mode, signed, targets@.len())
                == Some(error@),
        },
{
    let main = find_main_application(targets);
    let ghost all = targets_view(targets@);
    let ghost main_view = main_provisioning(all, targets@.len());
    let mut plan: Vec<PlannedTarget> = Vec::new();
    let mut i: usize = 0;
    while i < targets.len()
        invariant
            all == targets_view(targets@),
            main_view == main_provisioning(all, targets@.len()),
            match main {
                Some(index) => index < targets@.len() && main_view
                    == targets@[index as int]@.provisioning(),
                None => main_view == no_provisioning(),
            },
            i <= targets@.len(),
            plan@.len() == i,
            first_plan_failure(all, mode, signed, i as nat) is None,
            forall|j: int|
                0 <= j < i ==> (#[trigger] plan@[j])@ == planned_step(all[j], mode, main_view),
        decreases targets@.len() - i,
    {
        let target = &targets[i];
        let out_of_order = i > 0 && targets[i - 1].depth < target.depth;
        if out_of_order {
            proof {
                lemma_plan_failure_stays(all, mode, signed, (i + 1) as nat, targets@.len() as nat);
            }
            return Err(
                Error::TargetSign { target: target.path.clone(), cause: TargetFailure::OutOfOrder },
            );
        }
        let shares_main = match (mode, target.kind) {
            (SignerMode::Zsign, TargetKind::AppExtension) => true,
            _ => false,
        };
        let source = if shares_main {
            match main {
                Some(index) => Some(&targets[index]),
                None => None,
            }
        } else {
            Some(target)
        };
        let (entitlements, profile) = match source {
            Some(source) => (copy_bytes(&source.entitlements), copy_path(&source.profile)),
            None => (None, None),
        };
        let needs = match target.kind {
            TargetKind::Application => true,
            TargetKind::AppExtension => true,
            _ => false,
        };
        if signed && needs && entitlements.is_none() {
            proof {
                lemma_plan_failure_stays(all, mode, signed, (i + 1) as nat, targets@.len() as nat);
            }
            return Err(
                Error::TargetSign {
                    target: target.path.clone(),
                    cause: TargetFailure::EntitlementsMissing,
                },
            );
        }
        plan.push(PlannedTarget { path: target.path.clone(), entitlements, profile });
        i += 1;
    }
    proof {
        law_planned_targets_are_innermost_first(all, mode, signed);
    }
    Ok(plan)
}

/// Once a target cannot be planned, taking more targets into account does
/// not change the failure.
pub proof fn lemma_plan_failure_stays(
    targets: Seq<TargetView>,
    mode: SignerMode,
    signed: bool,
    at: nat,
    count: nat,
)
    requires
        at <= count,
        first_plan_failure(targets, mode, signed, at) is Some,
    ensures
        first_plan_failure(targets, mode, signed, count) == first_plan_failure(
            targets,
            mode,
            signed,
            at,
        ),
    decreases count,
{
    if at < count {
        lemma_plan_failure_stays(targets, mode, signed, at, (count - 1) as nat);
    }
}

/// Where no target among the first `count` fails to be planned, those
/// targets come innermost first.
pub proof fn lemma_planned_prefix_is_innermost_first(
    targets: Seq<TargetView>,
    mode: SignerMode,
    signed: bool,
    count: nat,
)
    requires
        count <= targets.len(),
        first_plan_failure(targets, mode, signed, count) is None,
    ensures
        forall|i: int, j: int| 0 <= i < j < count ==> targets[i].depth >= targets[j].depth,
    decreases count,
{
    if count > 0 {
        lemma_planned_prefix_is_innermost_first(targets, mode, signed, (count - 1) as nat);
    }
}

/// A list of targets that is planned comes innermost first: no target is
/// ever signed after a bundle it is nested in.
pub proof fn law_planned_targets_are_innermost_first(
    targets: Seq<TargetView>,
    mode: SignerMode,
    signed: bool,
)
    requires
        first_plan_failure(targets, mode, signed, targets.len()) is None,
    ensures
        innermost_first(targets),
{
    lemma_planned_prefix_is_innermost_first(targets, mode, signed, targets.len());
}

/// A list of targets in which some target is nested deeper than the one
/// before it is never planned.
pub proof fn law_outer_first_order_is_refused(
    targets: Seq<TargetView>,
    mode: SignerMode,
    signed: bool,
    index: int,
)
    requires
        0 < index < targets.len(),
        targets[index - 1].depth < targets[index].depth,
    ensures
        first_plan_failure(targets, mode, signed, targets.len()) is Some,
{
    lemma_plan_failure_stays(targets, mode, signed, (index + 1) as nat, targets.len());
}

} // verus!
