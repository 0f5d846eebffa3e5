//! Formatting and checking helpers for the self-tests. The self-tests
//! themselves only count failures; writing messages to a log is left to the
//! surrounding application.

use vstd::prelude::*;
use vstd::string::StringExecFns;

verus! {

/// Formats a single log message for a passed or failed self-test.
pub fn format_message(failed: bool, alg_name: String, test_name: String, message: String) -> (r:
    String)
    ensures
        r@ == (if failed {
            "TEST FAILED ("@
        } else {
            "TEST PASSED ("@
        }) + alg_name@ + ") - "@ + test_name@ + ": "@ + message@ + "\n"@,
{
    let mut res = String::new();
    if failed {
        res.append("TEST FAILED (");
    } else {
        res.append("TEST PASSED (");
    }
    res.append(alg_name.as_str());
    res.append(") - ");
    res.append(test_name.as_str());
    res.append(": ");
    res.append(message.as_str());
    res.append("\n");
    proof {
        assert(res@ =~= (if failed {
            "TEST FAILED ("@
        } else {
            "TEST PASSED ("@
        }) + alg_name@ + ") - "@ + test_name@ + ": "@ + message@ + "\n"@);
    }
    res
}

/// Compares a result code against the expected one: 0 when they agree, 1
/// when they differ. The names and messages mirror what a logging harness
/// would report.
#[allow(unused_variables)]
pub fn check_res(
    result: usize,
    expected: usize,
    test_name: String,
    module_name: String,
    fail_msg: String,
    succ_msg: String,
) -> (r: usize)
    ensures
        r == (if result == expected {
            0int
        } else {
            1int
        }),
{
    if result == expected {
        0
    } else {
        1
    }
}

/// Byte-for-byte equality of two byte strings.
pub fn bytes_eq(a: &[u8], b: &[u8]) -> (r: bool)
    ensures
        r == (a@ == b@),
{
    if a.len() != b.len() {
        proof {
            assert(a@ != b@);
        }
        return false;
    }
    let n = a.len();
    let mut i: usize = 0;
    while i < n
        invariant
            i <= n,
            n == a@.len(),
            n == b@.len(),
            forall|t: int| 0 <= t < i ==> a@[t] == b@[t],
        decreases n - i,
    {
        if a[i] != b[i] {
            proof {
                assert(a@ != b@);
            }
            return false;
        }
        i += 1;
    }
    proof {
        assert(a@ =~= b@);
    }
    true
}

} // verus!
