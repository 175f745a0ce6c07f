//! Plain-text rendering of the ISO 20022 element as its four-tag XML
//! fragment.

use vstd::prelude::*;

use crate::iso20022::{ISO20022Address, ISO20022AddressView};

verus! {

/// The XML fragment that renders an ISO 20022 element: its street name,
/// postal code, town name and country, each inside its standard tag.
pub open spec fn spec_iso20022_xml(i: ISO20022AddressView) -> Seq<char> {
    "<PstlAdr>\n  <StrtNm>"@ + i.street_name + "</StrtNm>\n  <PstCd>"@ + i.post_code
        + "</PstCd>\n  <TwnNm>"@ + i.town_name + "</TwnNm>\n  <Ctry>"@ + i.country
        + "</Ctry>\n</PstlAdr>"@
}

/// Formats an [`ISO20022Address`] as XML.
pub fn format_iso20022_address(address: &ISO20022Address) -> (r: String)
    ensures
        r@ == spec_iso20022_xml(address@),
{
    let mut out = String::from_str("<PstlAdr>\n  <StrtNm>");
    out.append(address.street_name.as_str());
    out.append("</StrtNm>\n  <PstCd>");
    out.append(address.post_code.as_str());
    out.append("</PstCd>\n  <TwnNm>");
    out.append(address.town_name.as_str());
    out.append("</TwnNm>\n  <Ctry>");
    out.append(address.country.as_str());
    out.append("</Ctry>\n</PstlAdr>");
    out
}

} // verus!
