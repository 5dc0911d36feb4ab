use vstd::prelude::*;

verus! {

/// The gateway address a client uses when none is configured.
pub open spec fn default_endpoint() -> Seq<char> {
    "http://[::1]:47403"@
}

/// The URL of the gateway for a configured socket address, if any.
pub open spec fn endpoint_url_of(endpoint: Option<Seq<char>>, use_https: bool) -> Seq<char> {
    match endpoint {
        None => default_endpoint(),
        Some(addr) => if use_https {
            "https://"@ + addr
        } else {
            "http://"@ + addr
        },
    }
}

/// The gateway URL: the configured address under the configured scheme, or the default.
pub fn endpoint_url(endpoint: Option<&str>, use_https: bool) -> (r: String)
    ensures
        r@ == endpoint_url_of(
            match endpoint {
                Some(e) => Some(e@),
                None => None,
            },
            use_https,
        ),
{
    match endpoint {
        None => String::from_str("http://[::1]:47403"),
        Some(addr) => {
            let mut url = if use_https {
                String::from_str("https://")
            } else {
                String::from_str("http://")
            };
            url.append(addr);
            url
        },
    }
}

/// The record that announces one available printer to the embedding host.
pub open spec fn available_json(dev_name: Seq<char>, dev_id: Seq<char>) -> Seq<char> {
    "{\n  \"dev_name\": \""@ + dev_name + "\",\n  \"dev_id\": \""@ + dev_id
        + "\",\n  \"dev_ip\": \"127.0.0.1\",\n  \"dev_type\": \"3DPrinter-X1-Carbon\",\n  \"dev_signal\": \"0dbm\",\n  \"connect_type\": \"lan\",\n  \"bind_state\": \"free\"\n}"@
}

/// Writes the announcement of one available printer.
pub fn printer_available_json(dev_name: &str, dev_id: &str) -> (r: String)
    ensures
        r@ == available_json(dev_name@, dev_id@),
{
    let mut out = String::from_str("{\n  \"dev_name\": \"");
    out.append(dev_name);
    out.append("\",\n  \"dev_id\": \"");
    out.append(dev_id);
    out.append(
        "\",\n  \"dev_ip\": \"127.0.0.1\",\n  \"dev_type\": \"3DPrinter-X1-Carbon\",\n  \"dev_signal\": \"0dbm\",\n  \"connect_type\": \"lan\",\n  \"bind_state\": \"free\"\n}",
    );
    out
}

} // verus!
