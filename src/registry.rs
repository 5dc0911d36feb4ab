use vstd::prelude::*;

verus! {

/// The printer models that a roster entry may name.
#[derive(Clone, Copy, Debug, PartialEq, Eq, Structural)]
pub enum PrinterModel {
    X1Carbon,
    X1,
}

impl PrinterModel {
    pub open spec fn spec_product_name(self) -> Seq<char> {
        match self {
            PrinterModel::X1Carbon => "3DPrinter-X1-Carbon"@,
            PrinterModel::X1 => "3DPrinter-X1"@,
        }
    }

    /// The product name that clients see for this model.
    pub fn product_name(&self) -> (r: String)
        ensures
            r@ == self.spec_product_name(),
    {
        match self {
            PrinterModel::X1Carbon => String::from_str("3DPrinter-X1-Carbon"),
            PrinterModel::X1 => String::from_str("3DPrinter-X1"),
        }
    }
}

/// The model that a lower-cased model field names, if any.
pub open spec fn model_of_lowered(s: Seq<char>) -> Option<PrinterModel> {
    if s == "x1c"@ {
        Some(PrinterModel::X1Carbon)
    } else if s == "x1"@ {
        Some(PrinterModel::X1)
    } else {
        None
    }
}

/// What `str::to_lowercase` makes of a string.
pub uninterp spec fn lower_of(s: Seq<char>) -> Seq<char>;

/// Relies on str::to_lowercase: the result depends on the characters alone.
#[verifier::external_body]
fn lowercase(s: &str) -> (r: String)
    ensures
        r@ == lower_of(s@),
{
    s.to_lowercase()
}

/// Reads an already lower-cased model field.
pub fn model_from_lowered(l: &str) -> (r: Option<PrinterModel>)
    ensures
        r == model_of_lowered(l@),
{
    let l = String::from_str(l);
    if l == String::from_str("x1c") {
        Some(PrinterModel::X1Carbon)
    } else if l == String::from_str("x1") {
        Some(PrinterModel::X1)
    } else {
        None
    }
}

/// Reads a model field, ignoring case.
pub fn parse_model(raw: &str) -> (r: Option<PrinterModel>)
    ensures
        r == model_of_lowered(lower_of(raw@)),
{
    let l = lowercase(raw);
    model_from_lowered(l.as_str())
}

/// The connection metadata of one known device.
#[derive(Debug)]
pub struct Printer {
    pub name: String,
    pub id: String,
    pub ip: String,
    pub model: PrinterModel,
    pub password: String,
}

pub struct PrinterView {
    pub name: Seq<char>,
    pub id: Seq<char>,
    pub ip: Seq<char>,
    pub model: PrinterModel,
    pub password: Seq<char>,
}

impl View for Printer {
    type V = PrinterView;

    open spec fn view(&self) -> PrinterView {
        PrinterView {
            name: self.name@,
            id: self.id@,
            ip: self.ip@,
            model: self.model,
            password: self.password@,
        }
    }
}

impl Printer {
    /// A copy of the record, handed out instead of a reference.
    pub fn snapshot(&self) -> (r: Printer)
        ensures
            r@ == self@,
    {
        Printer {
            name: self.name.clone(),
            id: self.id.clone(),
            ip: self.ip.clone(),
            model: self.model,
            password: self.password.clone(),
        }
    }
}

/// One roster entry as the configuration source gives it: any field may be absent.
#[derive(Debug)]
pub struct PrinterEntry {
    pub dev_id: Option<String>,
    pub model: Option<String>,
    pub host: Option<String>,
    pub password: Option<String>,
    pub name: Option<String>,
}

/// The fields that a roster entry requires.
#[derive(Clone, Copy, Debug, PartialEq, Eq, Structural)]
pub enum ConfigField {
    DevId,
    Model,
    Host,
    Password,
    Name,
}

/// Why a roster entry was left out of the roster.
#[derive(Clone, Copy, Debug, PartialEq, Eq, Structural)]
pub enum RosterIssue {
    MissingField(ConfigField),
    UnknownModel,
    DuplicateId,
}

/// The first problem of an entry, checked field by field, or `None` for a usable entry.
pub open spec fn entry_issue(e: PrinterEntry) -> Option<RosterIssue> {
    if e.dev_id is None {
        Some(RosterIssue::MissingField(ConfigField::DevId))
    } else if e.model is None {
        Some(RosterIssue::MissingField(ConfigField::Model))
    } else if model_of_lowered(lower_of(e.model->0@)) is None {
        Some(RosterIssue::UnknownModel)
    } else if e.host is None {
        Some(RosterIssue::MissingField(ConfigField::Host))
    } else if e.password is None {
        Some(RosterIssue::MissingField(ConfigField::Password))
    } else if e.name is None {
        Some(RosterIssue::MissingField(ConfigField::Name))
    } else {
        None
    }
}

/// The record that a usable entry describes.
pub open spec fn entry_record(e: PrinterEntry) -> PrinterView {
    PrinterView {
        name: e.name->0@,
        id: e.dev_id->0@,
        ip: e.host->0@,
        model: model_of_lowered(lower_of(e.model->0@))->0,
        password: e.password->0@,
    }
}

fn copy_field(f: &Option<String>) -> (r: Option<String>)
    ensures
        r is Some <==> f is Some,
        f is Some ==> r->0@ == f->0@,
{
    match f {
        Some(s) => Some(s.clone()),
        None => None,
    }
}

/// Turns one roster entry into a printer record, or says which field is wrong.
pub fn construct_printer(entry: &PrinterEntry) -> (r: Result<Printer, RosterIssue>)
    ensures
        match entry_issue(*entry) {
            Some(issue) => r == Err::<Printer, RosterIssue>(issue),
            None => r is Ok && r->Ok_0@ == entry_record(*entry),
        },
{
    let dev_id = match copy_field(&entry.dev_id) {
        Some(v) => v,
        None => return Err(RosterIssue::MissingField(ConfigField::DevId)),
    };
    let model = match &entry.model {
        Some(raw) => match parse_model(raw.as_str()) {
            Some(m) => m,
            None => return Err(RosterIssue::UnknownModel),
        },
        None => return Err(RosterIssue::MissingField(ConfigField::Model)),
    };
    let host = match copy_field(&entry.host) {
        Some(v) => v,
        None => return Err(RosterIssue::MissingField(ConfigField::Host)),
    };
    let password = match copy_field(&entry.password) {
        Some(v) => v,
        None => return Err(RosterIssue::MissingField(ConfigField::Password)),
    };
    let name = match copy_field(&entry.name) {
        Some(v) => v,
        None => return Err(RosterIssue::MissingField(ConfigField::Name)),
    };
    Ok(Printer { name, id: dev_id, ip: host, model, password })
}


/// No two records of a roster share an id.
pub open spec fn ids_unique(s: Seq<PrinterView>) -> bool {
    forall|i: int, j: int| 0 <= i < j < s.len() ==> s[i].id != s[j].id
}

pub open spec fn has_id(s: Seq<PrinterView>, id: Seq<char>) -> bool {
    exists|i: int| 0 <= i < s.len() && s[i].id == id
}

/// The roster that a list of entries gives: each usable entry in order, unless an
/// earlier one already holds its id.
pub open spec fn roster_of(es: Seq<PrinterEntry>) -> Seq<PrinterView>
    decreases es.len(),
{
    if es.len() == 0 {
        Seq::empty()
    } else {
        let prev = roster_of(es.drop_last());
        let e = es.last();
        if entry_issue(e) is None && !has_id(prev, entry_record(e).id) {
            prev.push(entry_record(e))
        } else {
            prev
        }
    }
}

/// Why each left-out entry was left out, with its position.
pub open spec fn issues_of(es: Seq<PrinterEntry>) -> Seq<(int, RosterIssue)>
    decreases es.len(),
{
    if es.len() == 0 {
        Seq::empty()
    } else {
        let prev = issues_of(es.drop_last());
        let e = es.last();
        let at = es.len() - 1;
        match entry_issue(e) {
            Some(issue) => prev.push((at, issue)),
            None => if has_id(roster_of(es.drop_last()), entry_record(e).id) {
                prev.push((at, RosterIssue::DuplicateId))
            } else {
                prev
            },
        }
    }
}

/// A roster entry that could not be used, with its position in the configuration.
#[derive(Clone, Copy, Debug, PartialEq, Eq, Structural)]
pub struct Diagnostic {
    pub index: usize,
    pub issue: RosterIssue,
}

/// What enumeration hands out for one printer.
#[derive(Debug)]
pub struct PrinterOption {
    pub dev_name: String,
    pub dev_id: String,
    pub model: String,
}

pub struct PrinterOptionView {
    pub dev_name: Seq<char>,
    pub dev_id: Seq<char>,
    pub model: Seq<char>,
}

impl View for PrinterOption {
    type V = PrinterOptionView;

    open spec fn view(&self) -> PrinterOptionView {
        PrinterOptionView { dev_name: self.dev_name@, dev_id: self.dev_id@, model: self.model@ }
    }
}

pub open spec fn option_of(p: PrinterView) -> PrinterOptionView {
    PrinterOptionView { dev_name: p.name, dev_id: p.id, model: p.model.spec_product_name() }
}

/// The list that one enumeration emits for a roster.
pub open spec fn options_of(s: Seq<PrinterView>) -> Seq<PrinterOptionView> {
    s.map_values(|p: PrinterView| option_of(p))
}


/// Every device of a roster appears in an enumeration exactly once, under its own id. The
/// emission depends on the roster alone, so each one repeats the same ids.
pub proof fn lemma_enumeration_lists_each_device_once(roster: Seq<PrinterView>, d: Seq<char>)
    requires
        ids_unique(roster),
        has_id(roster, d),
    ensures
        options_of(roster).len() == roster.len(),
        exists|i: int|
            0 <= i < options_of(roster).len() && options_of(roster)[i].dev_id == d && forall|
                j: int,
            |
                0 <= j < options_of(roster).len() && #[trigger] options_of(roster)[j].dev_id == d
                    ==> j == i,
{
    let i = choose|i: int| 0 <= i < roster.len() && roster[i].id == d;
    assert(options_of(roster)[i].dev_id == d);
    assert forall|j: int|
        0 <= j < options_of(roster).len() && #[trigger] options_of(roster)[j].dev_id == d implies j
        == i by {
        assert(options_of(roster)[j].dev_id == roster[j].id);
    }
}

/// The fixed roster of known devices. It is filled once and only read after that.
pub struct Registry {
    printers: Vec<Printer>,
}

impl View for Registry {
    type V = Seq<PrinterView>;

    closed spec fn view(&self) -> Seq<PrinterView> {
        self.printers@.map_values(|p: Printer| p@)
    }
}

impl Registry {
    pub open spec fn wf(&self) -> bool {
        ids_unique(self@)
    }

    fn find(&self, id: &str) -> (r: Option<usize>)
        ensures
            match r {
                Some(i) => i < self@.len() && self@[i as int].id == id@,
                None => !has_id(self@, id@),
            },
    {
        let key = String::from_str(id);
        let mut i: usize = 0;
        while i < self.printers.len()
            invariant
                i <= self.printers@.len(),
                key@ == id@,
                forall|k: int| 0 <= k < i ==> self@[k].id != id@,
            decreases self.printers@.len() - i,
        {
            if self.printers[i].id == key {
                return Some(i);
            }
            i = i + 1;
        }
        None
    }

    /// Builds the roster from configuration entries. Unusable entries, and entries whose id
    /// is already taken, are left out and reported.
    pub fn from_entries(entries: &Vec<PrinterEntry>) -> (r: (Registry, Vec<Diagnostic>))
        ensures
            r.0.wf(),
            r.0@ == roster_of(entries@),
            r.1@.len() == issues_of(entries@).len(),
            forall|k: int| 0 <= k < r.1@.len() ==>
                r.1@[k].index as int == issues_of(entries@)[k].0
                && r.1@[k].issue == issues_of(entries@)[k].1,
    {
        let mut reg = Registry { printers: Vec::new() };
        let mut diags: Vec<Diagnostic> = Vec::new();
        let mut i: usize = 0;
        while i < entries.len()
            invariant
                i <= entries@.len(),
                reg.wf(),
                reg@ == roster_of(entries@.take(i as int)),
                diags@.len() == issues_of(entries@.take(i as int)).len(),
                forall|k: int| 0 <= k < diags@.len() ==>
                    diags@[k].index as int == issues_of(entries@.take(i as int))[k].0
                    && diags@[k].issue == issues_of(entries@.take(i as int))[k].1,
            decreases entries@.len() - i,
        {
            proof {
                let next = entries@.take(i + 1);
                assert(next.drop_last() =~= entries@.take(i as int));
                assert(next.last() == entries@[i as int]);
            }
            match construct_printer(&entries[i]) {
                Ok(p) => {
                    match reg.find(p.id.as_str()) {
                        Some(_) => {
                            diags.push(Diagnostic { index: i, issue: RosterIssue::DuplicateId });
                        },
                        None => {
                            let ghost before = reg@;
                            reg.printers.push(p);
                            proof {
                                assert(reg@ =~= before.push(p@));
                            }
                        },
                    }
                },
                Err(issue) => {
                    diags.push(Diagnostic { index: i, issue });
                },
            }
            i = i + 1;
        }
        proof {
            assert(entries@.take(entries@.len() as int) =~= entries@);
        }
        (reg, diags)
    }

    pub fn is_empty(&self) -> (r: bool)
        ensures
            r == (self@.len() == 0),
    {
        self.printers.len() == 0
    }

    /// Looks a device up by id and hands out a copy of its record.
    pub fn lookup(&self, id: &str) -> (r: Option<Printer>)
        requires
            self.wf(),
        ensures
            match r {
                Some(p) => exists|i: int| 0 <= i < self@.len() && self@[i].id == id@ && p@ == self@[i],
                None => !has_id(self@, id@),
            },
    {
        match self.find(id) {
            Some(i) => Some(self.printers[i].snapshot()),
            None => None,
        }
    }

    /// One snapshot of the roster, as enumeration emits it.
    pub fn list(&self) -> (r: Vec<PrinterOption>)
        ensures
            r@.len() == self@.len(),
            forall|k: int| 0 <= k < r@.len() ==> r@[k]@ == options_of(self@)[k],
    {
        let mut out: Vec<PrinterOption> = Vec::new();
        let mut i: usize = 0;
        while i < self.printers.len()
            invariant
                i <= self.printers@.len(),
                out@.len() == i,
                forall|k: int| 0 <= k < i ==> out@[k]@ == options_of(self@)[k],
            decreases self.printers@.len() - i,
        {
            let p = &self.printers[i];
            out.push(PrinterOption {
                dev_name: p.name.clone(),
                dev_id: p.id.clone(),
                model: p.model.product_name(),
            });
            i = i + 1;
        }
        out
    }
}

} // verus!
