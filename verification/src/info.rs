//! The info resource: the [`Info`] record, its [`Offer`] entries, and
//! its fetch URL.

use vstd::prelude::*;

use crate::DecodeError;
use crate::envelope::{FromJson, views_of, s_field_arr, all_elems_decode, spec_decode_strict,
    decode_array_strict};
use crate::json::{JsonValue, parsed_json, parse_json, s_str, s_u32, s_bool, get_entry, get_str,
    get_u32, get_bool};

verus! {

/// One offer available in the current country.
#[derive(Debug, Clone, PartialEq)]
pub struct Offer {
    /// The offer's id in the remote system.
    pub id: u32,
    /// The offer's name.
    pub name: String,
    /// The offer's amount.
    pub amount: String,
    /// The offer's currency.
    pub currency: String,
    /// The offer's displayed amount.
    pub displayed_amount: String,
    /// The offer's terms and conditions link.
    pub tc: String,
    /// The offer's terms and conditions, as HTML.
    pub tc_html: String,
    /// The offer's terms and conditions, as text.
    pub tc_txt: String,
    /// The offer's try-and-buy setting.
    pub try_and_buy: u32,
}

/// Mathematical model of an [`Offer`].
pub struct OfferView {
    pub id: u32,
    pub name: Seq<char>,
    pub amount: Seq<char>,
    pub currency: Seq<char>,
    pub displayed_amount: Seq<char>,
    pub tc: Seq<char>,
    pub tc_html: Seq<char>,
    pub tc_txt: Seq<char>,
    pub try_and_buy: u32,
}

impl View for Offer {
    type V = OfferView;

    open spec fn view(&self) -> OfferView {
        OfferView {
            id: self.id,
            name: self.name@,
            amount: self.amount@,
            currency: self.currency@,
            displayed_amount: self.displayed_amount@,
            tc: self.tc@,
            tc_html: self.tc_html@,
            tc_txt: self.tc_txt@,
            try_and_buy: self.try_and_buy,
        }
    }
}

/// The decode of `v` as an offer, when it succeeds.
pub open spec fn spec_offer(v: JsonValue) -> Option<OfferView> {
    if s_u32(v, "id"@) is None || s_str(v, "name"@) is None || s_str(v, "amount"@) is None
        || s_str(v, "currency"@) is None || s_str(v, "displayed_amount"@) is None || s_str(
        v,
        "tc"@,
    ) is None || s_str(v, "tc_html"@) is None || s_str(v, "tc_txt"@) is None || s_u32(
        v,
        "try_and_buy"@,
    ) is None {
        None
    } else {
        Some(
            OfferView {
                id: s_u32(v, "id"@)->0,
                name: s_str(v, "name"@)->0,
                amount: s_str(v, "amount"@)->0,
                currency: s_str(v, "currency"@)->0,
                displayed_amount: s_str(v, "displayed_amount"@)->0,
                tc: s_str(v, "tc"@)->0,
                tc_html: s_str(v, "tc_html"@)->0,
                tc_txt: s_str(v, "tc_txt"@)->0,
                try_and_buy: s_u32(v, "try_and_buy"@)->0,
            },
        )
    }
}

impl FromJson for Offer {
    open spec fn spec_from_json(v: JsonValue) -> Option<OfferView> {
        spec_offer(v)
    }

    fn from_json(v: &JsonValue) -> (r: Option<Offer>) {
        let id = get_u32(v, "id")?;
        let name = get_str(v, "name")?;
        let amount = get_str(v, "amount")?;
        let currency = get_str(v, "currency")?;
        let displayed_amount = get_str(v, "displayed_amount")?;
        let tc = get_str(v, "tc")?;
        let tc_html = get_str(v, "tc_html")?;
        let tc_txt = get_str(v, "tc_txt")?;
        let try_and_buy = get_u32(v, "try_and_buy")?;
        Some(
            Offer {
                id,
                name,
                amount,
                currency,
                displayed_amount,
                tc,
                tc_html,
                tc_txt,
                try_and_buy,
            },
        )
    }
}

/// Full record for the info resource: what the API offers in the
/// current country.
#[derive(Debug, Clone, PartialEq)]
pub struct Info {
    /// The current country ISO code.
    pub country_iso: String,
    /// The current country name.
    pub country: String,
    /// Whether the service is open in the current country. Wire name:
    /// `open`.
    pub is_open: bool,
    /// The offers available in the current country, from a bare array,
    /// decoded strictly.
    pub offers: Vec<Offer>,
}

/// Mathematical model of an [`Info`].
pub struct InfoView {
    pub country_iso: Seq<char>,
    pub country: Seq<char>,
    pub is_open: bool,
    pub offers: Seq<OfferView>,
}

impl View for Info {
    type V = InfoView;

    open spec fn view(&self) -> InfoView {
        InfoView {
            country_iso: self.country_iso@,
            country: self.country@,
            is_open: self.is_open,
            offers: views_of(self.offers@),
        }
    }
}

/// The decode of `v` as an info record, when it succeeds.
pub open spec fn spec_info(v: JsonValue) -> Option<InfoView> {
    if s_str(v, "country_iso"@) is None || s_str(v, "country"@) is None || s_bool(v, "open"@)
        is None || s_field_arr(v, "offers"@) is None || !all_elems_decode::<Offer>(
        s_field_arr(v, "offers"@)->0,
    ) {
        None
    } else {
        Some(
            InfoView {
                country_iso: s_str(v, "country_iso"@)->0,
                country: s_str(v, "country"@)->0,
                is_open: s_bool(v, "open"@)->0,
                offers: spec_decode_strict::<Offer>(s_field_arr(v, "offers"@)->0),
            },
        )
    }
}

impl Info {
    /// Decodes an info record from a JSON value.
    pub fn from_json(v: &JsonValue) -> (r: Option<Info>)
        ensures
            r matches Some(i) ==> spec_info(*v) == Some(i@),
            r is None ==> spec_info(*v) is None,
    {
        let country_iso = get_str(v, "country_iso")?;
        let country = get_str(v, "country")?;
        let is_open = get_bool(v, "open")?;
        let offers_v = get_entry(v, "offers")?;
        let offers = match decode_array_strict::<Offer>(offers_v) {
            Ok(o) => o,
            Err(_) => {
                return None;
            },
        };
        Some(Info { country_iso, country, is_open, offers })
    }

    /// Decodes an info record from JSON text: the body of an info fetch.
    pub fn new(json: &str) -> (r: Result<Info, DecodeError>)
        ensures
            match parsed_json(json@) {
                None => r matches Err(e) && e == DecodeError::Syntax,
                Some(v) => match spec_info(v) {
                    None => r matches Err(e) && e == DecodeError::Structure,
                    Some(iv) => r matches Ok(i) && i@ == iv,
                },
            },
    {
        match parse_json(json) {
            None => Err(DecodeError::Syntax),
            Some(v) => match Info::from_json(&v) {
                None => Err(DecodeError::Structure),
                Some(i) => Ok(i),
            },
        }
    }
}

/// URL of the info resource.
pub open spec fn spec_info_api() -> Seq<char> {
    "https://api.deezer.com/infos"@
}

/// Produces the appropriate api url.
pub fn get_info_api() -> (r: String)
    ensures
        r@ == spec_info_api(),
{
    "https://api.deezer.com/infos".to_owned()
}

} // verus!
