use vstd::prelude::*;

use crate::bounds::Coordinates;
use crate::error::ClientError;

verus! {

/// One product a station sells, such as petrol or diesel.
#[derive(Clone, Debug, PartialEq, Eq)]
pub struct Commodity {
    pub id: String,
    pub name: String,
    /// Price per litre, in whole naira.
    pub price: i32,
    pub station_id: String,
    pub is_available: bool,
}

/// A fuel station as the server describes it.
#[derive(Clone, Debug, PartialEq, Eq)]
pub struct Station {
    pub id: String,
    pub name: String,
    pub address: String,
    pub email: String,
    pub phone: String,
    pub location: Coordinates,
    pub role: String,
    pub created_at: String,
    pub updated_at: String,
    /// Distance from the searcher, in metres, when the server computed one.
    pub distance_metres: Option<u64>,
    pub commodities: Vec<Commodity>,
}

/// No two commodities of the list share an id.
pub open spec fn unique_ids(cs: Seq<Commodity>) -> bool {
    forall|i: int, j: int|
        0 <= i < cs.len() && 0 <= j < cs.len() && i != j ==> #[trigger] cs[i].id@ != #[trigger] cs[j].id@
}

impl Station {
    /// A station is well formed when its commodities have distinct ids.
    pub open spec fn wf(&self) -> bool {
        unique_ids(self.commodities@)
    }

    /// Checks that the commodities have distinct ids.
    pub fn has_unique_commodity_ids(&self) -> (r: bool)
        ensures
            r == self.wf(),
    {
        let n = self.commodities.len();
        let mut i: usize = 0;
        while i < n
            invariant
                n == self.commodities@.len(),
                i <= n,
                forall|a: int, b: int|
                    0 <= a < i && 0 <= b < n && a != b ==> #[trigger] self.commodities@[a].id@ != #[trigger] self.commodities@[b].id@,
            decreases n - i,
        {
            let mut j: usize = 0;
            while j < n
                invariant
                    n == self.commodities@.len(),
                    i < n,
                    j <= n,
                    forall|a: int, b: int|
                        0 <= a < i && 0 <= b < n && a != b ==> #[trigger] self.commodities@[a].id@ != #[trigger] self.commodities@[b].id@,
                    forall|b: int| 0 <= b < j && b != i ==> self.commodities@[i as int].id@ != #[trigger] self.commodities@[b].id@,
                decreases n - j,
            {
                if j != i && self.commodities[i].id == self.commodities[j].id {
                    assert(self.commodities@[i as int].id@ == self.commodities@[j as int].id@);
                    return false;
                }
                j = j + 1;
            }
            i = i + 1;
        }
        true
    }

    /// The price shown for a station: that of its first commodity.
    pub fn first_price(&self) -> (r: Option<i32>)
        ensures
            r == (if self.commodities@.len() > 0 {
                Some(self.commodities@[0].price)
            } else {
                None::<i32>
            }),
    {
        if self.commodities.len() > 0 {
            Some(self.commodities[0].price)
        } else {
            None
        }
    }
}

pub open spec fn duplicate_id_text() -> Seq<char> {
    "two commodities share an id"@
}

/// Accepts a station the server sent only when it is well formed; one whose
/// commodities repeat an id is a decoding error.
pub fn checked_station(s: Station) -> (r: Result<Station, ClientError>)
    ensures
        s.wf() ==> r == Ok::<Station, ClientError>(s),
        !s.wf() ==> (r matches Err(ClientError::Decode { detail }) && detail@
            == duplicate_id_text()),
{
    if s.has_unique_commodity_ids() {
        Ok(s)
    } else {
        Err(ClientError::Decode { detail: String::from_str("two commodities share an id") })
    }
}

} // verus!
