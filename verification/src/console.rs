use vstd::prelude::*;
use crate::legacy::{arg_texts, parsed_usize, parse_usize};
use crate::text::{text_equals, text_of};

verus! {

/// What the device console is asked to check.
#[derive(Clone, Debug)]
pub struct Arguments {
    pub port: Option<String>,
    pub samples: usize,
    pub relay: Option<bool>,
}

/// The outcome of reading the console's arguments from index `i` on: the
/// port, the sample count and the relay request; `None` when help was asked
/// for; or the error.
pub open spec fn console_options(
    args: Seq<Seq<char>>,
    i: int,
    port: Option<Seq<char>>,
    samples: int,
    relay: Option<bool>,
) -> Result<Option<(Option<Seq<char>>, int, Option<bool>)>, Seq<char>>
    decreases args.len() - i,
{
    if i < 0 || i >= args.len() {
        Ok(Some((port, samples, relay)))
    } else {
        let a = args[i];
        if a == "--port"@ {
            if i + 1 >= args.len() {
                Err("--port requires a value"@)
            } else {
                console_options(args, i + 2, Some(args[i + 1]), samples, relay)
            }
        } else if a == "--samples"@ {
            if i + 1 >= args.len() {
                Err("--samples requires a value"@)
            } else {
                match parsed_usize(args[i + 1]) {
                    None => Err("--samples must be a positive integer"@),
                    Some(n) => if n == 0 {
                        Err("--samples must be positive"@)
                    } else {
                        console_options(args, i + 2, port, n as int, relay)
                    },
                }
            }
        } else if a == "--relay"@ {
            if i + 1 < args.len() && args[i + 1] == "on"@ {
                console_options(args, i + 2, port, samples, Some(true))
            } else if i + 1 < args.len() && args[i + 1] == "off"@ {
                console_options(args, i + 2, port, samples, Some(false))
            } else {
                Err("--relay must be on or off"@)
            }
        } else if a == "--help"@ || a == "-h"@ {
            Ok(None)
        } else {
            Err("unknown argument: "@ + a)
        }
    }
}

/// The usage text of the console.
pub fn console_usage() -> (r: &'static str)
    ensures
        r@ == "Usage: lumi-device-console [--port COM3] [--samples 3] [--relay on|off]"@,
{
    "Usage: lumi-device-console [--port COM3] [--samples 3] [--relay on|off]"
}

/// Reads the console's arguments: by default any port, three samples and
/// no relay test. `None` when help was asked for.
pub fn parse_arguments_from(args: &[String]) -> (r: Result<Option<Arguments>, String>)
    ensures
        match console_options(arg_texts(args@), 0, None, 3, None) {
            Ok(Some((port, samples, relay))) => r matches Ok(Some(a)) && text_of(a.port) == port
                && a.samples == samples && a.relay == relay,
            Ok(None) => r matches Ok(None),
            Err(e) => r matches Err(m) && m@ == e,
        },
{
    let ghost texts = arg_texts(args@);
    let mut port: Option<String> = None;
    let mut samples: usize = 3;
    let mut relay: Option<bool> = None;
    let mut i: usize = 0;
    while i < args.len()
        invariant
            0 <= i <= args@.len(),
            texts == arg_texts(args@),
            console_options(texts, 0, None, 3, None) == console_options(
                texts,
                i as int,
                text_of(port),
                samples as int,
                relay,
            ),
        decreases args@.len() - i,
    {
        let arg = args[i].as_str();
        assert(texts[i as int] == arg@);
        if text_equals(arg, "--port") {
            if i + 1 >= args.len() {
                return Err(String::from_str("--port requires a value"));
            }
            assert(texts[i + 1] == args@[i + 1]@);
            port = Some(args[i + 1].clone());
            i += 2;
        } else if text_equals(arg, "--samples") {
            if i + 1 >= args.len() {
                return Err(String::from_str("--samples requires a value"));
            }
            assert(texts[i + 1] == args@[i + 1]@);
            match parse_usize(args[i + 1].as_str()) {
                None => {
                    return Err(String::from_str("--samples must be a positive integer"));
                },
                Some(n) => {
                    if n == 0 {
                        return Err(String::from_str("--samples must be positive"));
                    }
                    samples = n;
                },
            }
            i += 2;
        } else if text_equals(arg, "--relay") {
            if i + 1 < args.len() {
                assert(texts[i + 1] == args@[i + 1]@);
            }
            if i + 1 < args.len() && text_equals(args[i + 1].as_str(), "on") {
                relay = Some(true);
                i += 2;
            } else if i + 1 < args.len() && text_equals(args[i + 1].as_str(), "off") {
                relay = Some(false);
                i += 2;
            } else {
                return Err(String::from_str("--relay must be on or off"));
            }
        } else if text_equals(arg, "--help") || text_equals(arg, "-h") {
            return Ok(None);
        } else {
            return Err(String::from_str("unknown argument: ").concat(arg));
        }
    }
    Ok(Some(Arguments { port, samples, relay }))
}

} // verus!
