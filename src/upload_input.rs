use vstd::prelude::*;
use vstd::string::*;

verus! {

/// What an upload request holds.
pub struct UploadRequest {
    pub contract_path: Seq<char>,
    pub initial_values: Seq<(Seq<char>, Seq<char>)>,
    pub endowment: Seq<char>,
    pub endowment_unit: Seq<char>,
}

/// The contract to upload and the values its constructor form is filled with.
pub struct UploadInput {
    /// Path to the contract bundle which should be uploaded.
    pub(crate) contract_path: String,
    /// Constructor fields, by label, with the values to type into them.
    pub(crate) initial_values: Vec<(String, String)>,
    /// Initial endowment of the contract.
    pub(crate) endowment: String,
    /// Unit of the initial endowment.
    pub(crate) endowment_unit: String,
}

pub open spec fn pair_view(p: (String, String)) -> (Seq<char>, Seq<char>) {
    (p.0@, p.1@)
}

impl View for UploadInput {
    type V = UploadRequest;

    closed spec fn view(&self) -> UploadRequest {
        UploadRequest {
            contract_path: self.contract_path@,
            initial_values: self.initial_values@.map_values(|p: (String, String)| pair_view(p)),
            endowment: self.endowment@,
            endowment_unit: self.endowment_unit@,
        }
    }
}

impl UploadInput {
    /// A request for `contract_path` with no constructor values and an
    /// endowment of 1000 Unit.
    pub fn new(contract_path: String) -> (r: Self)
        ensures
            r@.contract_path == contract_path@,
            r@.initial_values == Seq::<(Seq<char>, Seq<char>)>::empty(),
            r@.endowment == "1000"@,
            r@.endowment_unit == "Unit"@,
    {
        let r = UploadInput {
            contract_path,
            initial_values: Vec::new(),
            endowment: String::from_str("1000"),
            endowment_unit: String::from_str("Unit"),
        };
        assert(r@.initial_values =~= Seq::<(Seq<char>, Seq<char>)>::empty());
        r
    }

    /// Adds the value `val` for the constructor field labelled `key`, after
    /// those added before.
    pub fn push_initial_value(self, key: &str, val: &str) -> (r: Self)
        ensures
            r@ == (UploadRequest {
                initial_values: self@.initial_values.push((key@, val@)),
                ..self@
            }),
    {
        let mut next = self;
        next.initial_values.push((String::from_str(key), String::from_str(val)));
        assert(next@.initial_values =~= self@.initial_values.push((key@, val@)));
        next
    }

    pub(crate) fn path_text(&self) -> (r: &String)
        ensures
            r@ == self@.contract_path,
    {
        &self.contract_path
    }

    pub(crate) fn fields(&self) -> (r: &Vec<(String, String)>)
        ensures
            r@.map_values(|p: (String, String)| pair_view(p)) == self@.initial_values,
    {
        &self.initial_values
    }

    pub(crate) fn endowment_text(&self) -> (r: &String)
        ensures
            r@ == self@.endowment,
    {
        &self.endowment
    }

    pub(crate) fn unit_text(&self) -> (r: &String)
        ensures
            r@ == self@.endowment_unit,
    {
        &self.endowment_unit
    }

    /// Sets the contract path.
    pub fn contract_path(self, path: String) -> (r: Self)
        ensures
            r@ == (UploadRequest { contract_path: path@, ..self@ }),
    {
        let mut next = self;
        next.contract_path = path;
        next
    }

    /// Sets the initial endowment and its unit.
    pub fn endowment(self, endowment: &str, unit: &str) -> (r: Self)
        ensures
            r@ == (UploadRequest { endowment: endowment@, endowment_unit: unit@, ..self@ }),
    {
        let mut next = self;
        next.endowment = String::from_str(endowment);
        next.endowment_unit = String::from_str(unit);
        next
    }
}

} // verus!
