use vstd::prelude::*;
use crate::registry::PrinterView;

verus! {

/// The file-transfer root of a device, with its credentials.
pub open spec fn transfer_base(p: PrinterView) -> Seq<char> {
    "ftps://bblp:"@ + p.password + "@"@ + p.ip + "/"@
}

/// The command that removes `path` on the device.
pub open spec fn delete_command(path: Seq<char>) -> Seq<char> {
    "DELE "@ + path
}

/// The outcome of the last step that was carried out.
#[derive(Clone, Copy, Debug, PartialEq, Eq, Structural)]
pub struct StepOutcome {
    /// The step's command could be started at all.
    pub issued: bool,
    /// The step reported success.
    pub succeeded: bool,
}

/// Where an upload stands.
#[derive(Clone, Copy, Debug, PartialEq, Eq, Structural)]
pub enum UploadPhase {
    Start,
    Deleting,
    Staging,
    Transferring,
    CleaningUp(bool),
    Done(bool),
}

/// The next thing to carry out for an upload.
#[derive(Debug)]
pub enum UploadAction {
    /// Remove whatever lies at the remote path; the outcome does not matter.
    Delete { url: String, command: String },
    /// Write the payload to a scratch file.
    WriteScratch,
    /// Send the scratch file to this address.
    Transfer { url: String },
    /// Remove the scratch file.
    RemoveScratch,
    /// The upload is over, with this result.
    Finish(bool),
}

pub enum UploadActionView {
    Delete { url: Seq<char>, command: Seq<char> },
    WriteScratch,
    Transfer { url: Seq<char> },
    RemoveScratch,
    Finish(bool),
}

impl View for UploadAction {
    type V = UploadActionView;

    open spec fn view(&self) -> UploadActionView {
        match self {
            UploadAction::Delete { url, command } => UploadActionView::Delete {
                url: url@,
                command: command@,
            },
            UploadAction::WriteScratch => UploadActionView::WriteScratch,
            UploadAction::Transfer { url } => UploadActionView::Transfer { url: url@ },
            UploadAction::RemoveScratch => UploadActionView::RemoveScratch,
            UploadAction::Finish(s) => UploadActionView::Finish(*s),
        }
    }
}

/// The phase that follows `ph` once its step came out as `o`. The delete's outcome is
/// ignored, a failed scratch write goes straight to cleanup, and the result is that of the
/// transfer.
pub open spec fn next_phase(ph: UploadPhase, o: StepOutcome) -> UploadPhase {
    match ph {
        UploadPhase::Start => UploadPhase::Deleting,
        UploadPhase::Deleting => UploadPhase::Staging,
        UploadPhase::Staging => if o.issued && o.succeeded {
            UploadPhase::Transferring
        } else {
            UploadPhase::CleaningUp(false)
        },
        UploadPhase::Transferring => UploadPhase::CleaningUp(o.issued && o.succeeded),
        UploadPhase::CleaningUp(s) => UploadPhase::Done(s),
        UploadPhase::Done(s) => UploadPhase::Done(s),
    }
}

/// The action that a phase asks for, given the device's transfer root and the remote path.
pub open spec fn action_of(ph: UploadPhase, base: Seq<char>, path: Seq<char>) -> UploadActionView {
    match ph {
        UploadPhase::Start | UploadPhase::Deleting => UploadActionView::Delete {
            url: base,
            command: delete_command(path),
        },
        UploadPhase::Staging => UploadActionView::WriteScratch,
        UploadPhase::Transferring => UploadActionView::Transfer { url: base + path },
        UploadPhase::CleaningUp(_) => UploadActionView::RemoveScratch,
        UploadPhase::Done(s) => UploadActionView::Finish(s),
    }
}

/// One upload of a payload to a path on one device.
#[derive(Debug)]
pub struct UploadJob {
    dev_id: String,
    base: String,
    remote_path: String,
    payload: Vec<u8>,
    phase: UploadPhase,
}

impl UploadJob {
    pub closed spec fn spec_dev_id(&self) -> Seq<char> {
        self.dev_id@
    }

    pub closed spec fn spec_base(&self) -> Seq<char> {
        self.base@
    }

    pub closed spec fn spec_remote_path(&self) -> Seq<char> {
        self.remote_path@
    }

    pub closed spec fn spec_payload(&self) -> Seq<u8> {
        self.payload@
    }

    pub closed spec fn spec_phase(&self) -> UploadPhase {
        self.phase
    }

    /// A job that has not started, for the device at `ip` with the given password.
    pub fn new(dev_id: &str, password: &str, ip: &str, payload: Vec<u8>, remote_path: String) -> (r:
        UploadJob)
        ensures
            r.spec_dev_id() == dev_id@,
            r.spec_base() == "ftps://bblp:"@ + password@ + "@"@ + ip@ + "/"@,
            r.spec_remote_path() == remote_path@,
            r.spec_payload() == payload@,
            r.spec_phase() == UploadPhase::Start,
    {
        let mut base = String::from_str("ftps://bblp:");
        base.append(password);
        base.append("@");
        base.append(ip);
        base.append("/");
        UploadJob {
            dev_id: String::from_str(dev_id),
            base,
            remote_path,
            payload,
            phase: UploadPhase::Start,
        }
    }

    /// The bytes to send.
    pub fn payload(&self) -> (r: &[u8])
        ensures
            r@ == self.spec_payload(),
    {
        self.payload.as_slice()
    }

    pub fn phase(&self) -> (r: UploadPhase)
        ensures
            r == self.spec_phase(),
    {
        self.phase
    }

    /// Moves the job on by the outcome of the step it asked for last, and says what to do
    /// next. At the start, and after the delete and the cleanup, the outcome is not read.
    pub fn advance(&mut self, o: StepOutcome) -> (r: UploadAction)
        ensures
            final(self).spec_dev_id() == old(self).spec_dev_id(),
            final(self).spec_base() == old(self).spec_base(),
            final(self).spec_remote_path() == old(self).spec_remote_path(),
            final(self).spec_payload() == old(self).spec_payload(),
            final(self).spec_phase() == next_phase(old(self).spec_phase(), o),
            r@ == action_of(
                next_phase(old(self).spec_phase(), o),
                old(self).spec_base(),
                old(self).spec_remote_path(),
            ),
    {
        let next = match self.phase {
            UploadPhase::Start => UploadPhase::Deleting,
            UploadPhase::Deleting => UploadPhase::Staging,
            UploadPhase::Staging => if o.issued && o.succeeded {
                UploadPhase::Transferring
            } else {
                UploadPhase::CleaningUp(false)
            },
            UploadPhase::Transferring => UploadPhase::CleaningUp(o.issued && o.succeeded),
            UploadPhase::CleaningUp(s) => UploadPhase::Done(s),
            UploadPhase::Done(s) => UploadPhase::Done(s),
        };
        self.phase = next;
        match next {
            UploadPhase::Start | UploadPhase::Deleting => {
                let mut command = String::from_str("DELE ");
                command.append(self.remote_path.as_str());
                UploadAction::Delete { url: self.base.clone(), command }
            },
            UploadPhase::Staging => UploadAction::WriteScratch,
            UploadPhase::Transferring => {
                let mut url = self.base.clone();
                url.append(self.remote_path.as_str());
                UploadAction::Transfer { url }
            },
            UploadPhase::CleaningUp(_) => UploadAction::RemoveScratch,
            UploadPhase::Done(s) => UploadAction::Finish(s),
        }
    }
}

/// The phase after a run of outcomes, one per step, from `ph`.
pub open spec fn run_phases(ph: UploadPhase, os: Seq<StepOutcome>) -> UploadPhase
    decreases os.len(),
{
    if os.len() == 0 {
        ph
    } else {
        next_phase(run_phases(ph, os.drop_last()), os.last())
    }
}

/// From the start, an upload asks for a delete, a scratch write, a transfer and a cleanup, in
/// that order, whatever the delete came to; where the scratch write succeeded it ends with the
/// transfer's outcome, and the scratch file is removed on every path.
pub proof fn lemma_upload_result_is_transfer_result(
    begin: StepOutcome,
    delete: StepOutcome,
    staged: StepOutcome,
    transfer: StepOutcome,
    cleanup: StepOutcome,
)
    ensures
        run_phases(UploadPhase::Start, seq![begin]) == UploadPhase::Deleting,
        run_phases(UploadPhase::Start, seq![begin, delete]) == UploadPhase::Staging,
        staged.issued && staged.succeeded ==> run_phases(
            UploadPhase::Start,
            seq![begin, delete, staged],
        ) == UploadPhase::Transferring && run_phases(
            UploadPhase::Start,
            seq![begin, delete, staged, transfer],
        ) == UploadPhase::CleaningUp(transfer.issued && transfer.succeeded) && run_phases(
            UploadPhase::Start,
            seq![begin, delete, staged, transfer, cleanup],
        ) == UploadPhase::Done(transfer.issued && transfer.succeeded),
        !(staged.issued && staged.succeeded) ==> run_phases(
            UploadPhase::Start,
            seq![begin, delete, staged],
        ) == UploadPhase::CleaningUp(false) && run_phases(
            UploadPhase::Start,
            seq![begin, delete, staged, transfer],
        ) == UploadPhase::Done(false),
{
    let s1 = seq![begin];
    let s2 = seq![begin, delete];
    let s3 = seq![begin, delete, staged];
    let s4 = seq![begin, delete, staged, transfer];
    let s5 = seq![begin, delete, staged, transfer, cleanup];
    assert(s1.drop_last() =~= Seq::<StepOutcome>::empty());
    assert(s2.drop_last() =~= s1);
    assert(s3.drop_last() =~= s2);
    assert(s4.drop_last() =~= s3);
    assert(s5.drop_last() =~= s4);
    assert(run_phases(UploadPhase::Start, Seq::<StepOutcome>::empty()) == UploadPhase::Start);
    assert(run_phases(UploadPhase::Start, s1) == UploadPhase::Deleting);
    assert(run_phases(UploadPhase::Start, s2) == UploadPhase::Staging);
    assert(run_phases(UploadPhase::Start, s3) == next_phase(UploadPhase::Staging, staged));
    assert(run_phases(UploadPhase::Start, s4) == next_phase(
        next_phase(UploadPhase::Staging, staged),
        transfer,
    ));
    assert(run_phases(UploadPhase::Start, s5) == next_phase(
        run_phases(UploadPhase::Start, s4),
        cleanup,
    ));
}

} // verus!
