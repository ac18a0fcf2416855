use vstd::prelude::*;

verus! {

/// The highest risk score that can be recorded.
pub const MAX_RISK: u8 = 10;

/// What a risk query answers: a label and a score.
pub type CategoryRisk = (String, u8);

/// The label under which an address is classified.
#[derive(Clone, Copy, Debug, PartialEq, Eq, Structural)]
pub enum Category {
    /// No category; its label is `None`.
    Uncategorized,
    Test,
}

/// The text that stands for a category in a query's answer.
pub open spec fn label_of(category: Category) -> Seq<char> {
    match category {
        Category::Uncategorized => "None"@,
        Category::Test => "Test"@,
    }
}

impl Category {
    /// The text that stands for the category in a query's answer.
    pub fn label(&self) -> (text: String)
        ensures
            text@ == label_of(*self),
    {
        match self {
            Category::Uncategorized => "None".to_string(),
            Category::Test => "Test".to_string(),
        }
    }
}

/// What is recorded of one address.
#[derive(Clone, Copy, Debug, PartialEq, Eq, Structural)]
pub struct AddressInfo {
    category: Category,
    risk: u8,
}

impl View for AddressInfo {
    type V = (Category, u8);

    open spec fn view(&self) -> (Category, u8) {
        self.as_pair()
    }
}

impl AddressInfo {
    /// The category and the score.
    pub closed spec fn as_pair(&self) -> (Category, u8) {
        (self.category, self.risk)
    }

    /// A record with the given category and risk score.
    pub fn new(category: Category, risk: u8) -> (info: Self)
        requires
            risk <= MAX_RISK,
        ensures
            info@ == (category, risk),
    {
        AddressInfo { category, risk }
    }

    /// What a query about an address answers, given the record that was
    /// found for it: the record's category and score, or no category and no
    /// risk where none was found.
    pub fn or_unlisted(record: Option<AddressInfo>) -> (answer: (Category, u8))
        ensures
            answer == match record {
                Some(info) => info@,
                None => (Category::Uncategorized, 0u8),
            },
    {
        match record {
            Some(info) => (info.category, info.risk),
            None => (Category::Uncategorized, 0),
        }
    }

    /// The category of the address.
    pub fn category(&self) -> (category: Category)
        ensures
            category == self@.0,
    {
        self.category
    }

    /// The risk score of the address.
    pub fn risk(&self) -> (risk: u8)
        ensures
            risk == self@.1,
    {
        self.risk
    }
}

/// The interface of the service that scores addresses.
pub trait ExtAmlContract {
    /// What the service holds of `address`: a label and a score.
    spec fn scored(&self, address: Seq<char>) -> (Seq<char>, u8);

    /// The label and the score of `address`, as the service holds them.
    fn get_address(&self, address: String) -> (answer: CategoryRisk)
        ensures
            answer.0@ == self.scored(address@).0,
            answer.1 == self.scored(address@).1,
    ;
}

/// The records as a map: a later record of an address hides an earlier one.
pub open spec fn as_map(records: Seq<(Seq<char>, (Category, u8))>) -> Map<
    Seq<char>,
    (Category, u8),
>
    decreases records.len(),
{
    if records.len() == 0 {
        Map::empty()
    } else {
        as_map(records.drop_last()).insert(records.last().0, records.last().1)
    }
}

/// An address that no record names is not in the map.
pub proof fn lemma_as_map_absent(records: Seq<(Seq<char>, (Category, u8))>, address: Seq<char>)
    requires
        forall|k: int| 0 <= k < records.len() ==> (#[trigger] records[k]).0 != address,
    ensures
        !as_map(records).contains_key(address),
    decreases records.len(),
{
    if records.len() > 0 {
        let rest = records.drop_last();
        assert forall|k: int| 0 <= k < rest.len() implies (#[trigger] rest[k]).0 != address by {
            assert(rest[k] == records[k]);
        }
        lemma_as_map_absent(rest, address);
        assert(records.last() == records[records.len() - 1]);
    }
}

/// The map gives for an address what its last record holds.
pub proof fn lemma_as_map_last(
    records: Seq<(Seq<char>, (Category, u8))>,
    address: Seq<char>,
    i: int,
)
    requires
        0 <= i < records.len(),
        records[i].0 == address,
        forall|k: int| i < k < records.len() ==> (#[trigger] records[k]).0 != address,
    ensures
        as_map(records).contains_key(address),
        as_map(records)[address] == records[i].1,
    decreases records.len(),
{
    if i < records.len() - 1 {
        let rest = records.drop_last();
        assert forall|k: int| i < k < rest.len() implies (#[trigger] rest[k]).0 != address by {
            assert(rest[k] == records[k]);
        }
        assert(rest[i] == records[i]);
        lemma_as_map_last(rest, address, i);
        assert(records.last() == records[records.len() - 1]);
    }
}

/// What a register holds of `address`: its record, or no category and no
/// risk where it has none.
pub open spec fn recorded(register: Map<Seq<char>, (Category, u8)>, address: Seq<char>) -> (
    Category,
    u8,
) {
    if register.contains_key(address) {
        register[address]
    } else {
        (Category::Uncategorized, 0u8)
    }
}

/// Whether `answer` carries the label and the score of `record`.
pub open spec fn answers(answer: CategoryRisk, record: (Category, u8)) -> bool {
    answer.0@ == label_of(record.0) && answer.1 == record.1
}

/// A register of addresses with their category and risk score, which answers
/// risk queries.
pub struct ExtContract {
    owner_id: String,
    addresses: Vec<(String, AddressInfo)>,
}

impl View for ExtContract {
    type V = Map<Seq<char>, (Category, u8)>;

    open spec fn view(&self) -> Map<Seq<char>, (Category, u8)> {
        self.registered()
    }
}

impl ExtContract {
    /// The records, in the order in which they were made.
    pub closed spec fn records(&self) -> Seq<(Seq<char>, (Category, u8))> {
        Seq::new(self.addresses@.len(), |i: int| (self.addresses@[i].0@, self.addresses@[i].1@))
    }

    /// What the register holds of each address.
    pub closed spec fn registered(&self) -> Map<Seq<char>, (Category, u8)> {
        as_map(self.records())
    }

    /// The account that owns the register.
    pub closed spec fn owner(&self) -> Seq<char> {
        self.owner_id@
    }

    /// No recorded risk score is above the highest.
    pub open spec fn wf(&self) -> bool {
        forall|address: Seq<char>|
            self@.contains_key(address) ==> (#[trigger] self@[address]).1 <= MAX_RISK
    }

    /// An empty register owned by `owner_id`.
    pub fn new(owner_id: String) -> (contract: Self)
        ensures
            contract.wf(),
            contract@ == Map::<Seq<char>, (Category, u8)>::empty(),
            contract.owner() == owner_id@,
    {
        let contract = ExtContract { owner_id, addresses: Vec::new() };
        assert(contract.records() =~= Seq::<(Seq<char>, (Category, u8))>::empty());
        contract
    }

    /// The account that owns the register.
    pub fn owner_id(&self) -> (id: &String)
        ensures
            id@ == self.owner(),
    {
        &self.owner_id
    }

    /// The position of the last record of `address`.
    fn find(&self, address: &String) -> (found: Option<usize>)
        ensures
            match found {
                Some(i) => i < self.records().len() && self.records()[i as int].0 == address@
                    && self.records()[i as int].1 == self.addresses@[i as int].1@ && self@.contains_key(
                    address@,
                ) && self@[address@] == self.records()[i as int].1,
                None => !self@.contains_key(address@),
            },
    {
        let mut i: usize = self.addresses.len();
        while i > 0
            invariant
                i <= self.addresses.len(),
                self.records().len() == self.addresses.len(),
                forall|k: int| i <= k < self.addresses.len() ==> (#[trigger] self.records()[k]).0 != address@,
            decreases i,
        {
            i -= 1;
            if self.addresses[i].0 == *address {
                proof {
                    lemma_as_map_last(self.records(), address@, i as int);
                }
                return Some(i);
            }
        }
        proof {
            lemma_as_map_absent(self.records(), address@);
        }
        None
    }

    /// Whether the register holds a record of `address`.
    pub fn contains_address(&self, address: &String) -> (known: bool)
        ensures
            known == self@.contains_key(address@),
    {
        self.find(address).is_some()
    }

    /// Records `address` with its category and risk score.
    pub fn create_address(&mut self, address: String, category: Category, risk: u8)
        requires
            old(self).wf(),
            risk <= MAX_RISK,
            !old(self)@.contains_key(address@),
        ensures
            final(self).wf(),
            final(self)@ == old(self)@.insert(address@, (category, risk)),
            final(self).owner() == old(self).owner(),
    {
        let ghost before = self.records();
        let ghost name = address@;
        self.addresses.push((address, AddressInfo::new(category, risk)));
        assert(self.records().drop_last() =~= before);
        assert(self.records().last() == (name, (category, risk)));
    }

    /// The answer to a risk query about `address`: the label of its category
    /// and its risk score.
    pub fn answer(&self, address: String) -> (answer: CategoryRisk)
        ensures
            answers(answer, recorded(self@, address@)),
    {
        let (category, risk) = self.get_address(address);
        (category.label(), risk)
    }

    /// The category and the risk score of `address`; no category and no risk
    /// where the register does not hold it.
    pub fn get_address(&self, address: String) -> (answer: (Category, u8))
        ensures
            answer == recorded(self@, address@),
            self.wf() ==> answer.1 <= MAX_RISK,
    {
        match self.find(&address) {
            Some(i) => AddressInfo::or_unlisted(Some(self.addresses[i].1)),
            None => AddressInfo::or_unlisted(None),
        }
    }
}

impl ExtAmlContract for ExtContract {
    /// The register holds of an address the label of its category and its
    /// risk score.
    open spec fn scored(&self, address: Seq<char>) -> (Seq<char>, u8) {
        (label_of(recorded(self@, address).0), recorded(self@, address).1)
    }

    /// Answers a risk query from the register.
    fn get_address(&self, address: String) -> (answer: CategoryRisk) {
        self.answer(address)
    }
}

} // verus!
