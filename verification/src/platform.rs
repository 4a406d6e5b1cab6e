//! Supported social platforms and their canonical names.
use vstd::prelude::*;

use crate::bytes::bytes_eq;
use crate::errors::RegistryError;

verus! {

/// A social platform that identities can be bound on.
#[derive(PartialEq, Eq, Structural, Clone, Copy, Debug)]
pub enum SocialPlatform {
    X,
    Discord,
    Telegram,
    Email,
    Tiktok,
    Sms,
}

/// The canonical lowercase name of a platform, as UTF-8 bytes.
pub open spec fn platform_name(p: SocialPlatform) -> Seq<u8> {
    match p {
        SocialPlatform::X => seq![120u8],
        SocialPlatform::Discord => seq![100u8, 105, 115, 99, 111, 114, 100],
        SocialPlatform::Telegram => seq![116u8, 101, 108, 101, 103, 114, 97, 109],
        SocialPlatform::Email => seq![101u8, 109, 97, 105, 108],
        SocialPlatform::Tiktok => seq![116u8, 105, 107, 116, 111, 107],
        SocialPlatform::Sms => seq![115u8, 109, 115],
    }
}

/// The platform whose canonical name is exactly `s`, if any.
pub open spec fn platform_of_name(s: Seq<u8>) -> Option<SocialPlatform> {
    if s == platform_name(SocialPlatform::X) {
        Some(SocialPlatform::X)
    } else if s == platform_name(SocialPlatform::Discord) {
        Some(SocialPlatform::Discord)
    } else if s == platform_name(SocialPlatform::Telegram) {
        Some(SocialPlatform::Telegram)
    } else if s == platform_name(SocialPlatform::Email) {
        Some(SocialPlatform::Email)
    } else if s == platform_name(SocialPlatform::Tiktok) {
        Some(SocialPlatform::Tiktok)
    } else if s == platform_name(SocialPlatform::Sms) {
        Some(SocialPlatform::Sms)
    } else {
        None
    }
}

impl SocialPlatform {
    /// Parses a platform name; matching is exact and case-sensitive.
    pub fn is_platform_supported(s: &Vec<u8>) -> (r: Result<SocialPlatform, RegistryError>)
        ensures
            r == (match platform_of_name(s@) {
                Some(p) => Ok::<SocialPlatform, RegistryError>(p),
                None => Err(RegistryError::PlatformNotSupported),
            }),
    {
        let candidates: [SocialPlatform; 6] = [
            SocialPlatform::X,
            SocialPlatform::Discord,
            SocialPlatform::Telegram,
            SocialPlatform::Email,
            SocialPlatform::Tiktok,
            SocialPlatform::Sms,
        ];
        let mut i: usize = 0;
        while i < 6
            invariant
                i <= 6,
                candidates@ == seq![
                    SocialPlatform::X,
                    SocialPlatform::Discord,
                    SocialPlatform::Telegram,
                    SocialPlatform::Email,
                    SocialPlatform::Tiktok,
                    SocialPlatform::Sms,
                ],
                forall|j: int| 0 <= j < i ==> s@ != platform_name(#[trigger] candidates@[j]),
            decreases 6 - i,
        {
            let p = candidates[i];
            let name = p.as_str();
            if bytes_eq(&name, s) {
                return Ok(p);
            }
            i = i + 1;
        }
        assert(s@ != platform_name(candidates@[0]));
        assert(s@ != platform_name(candidates@[1]));
        assert(s@ != platform_name(candidates@[2]));
        assert(s@ != platform_name(candidates@[3]));
        assert(s@ != platform_name(candidates@[4]));
        assert(s@ != platform_name(candidates@[5]));
        Err(RegistryError::PlatformNotSupported)
    }

    /// The canonical lowercase name of the platform, the exact input that
    /// `is_platform_supported` accepts for it.
    pub fn as_str(&self) -> (r: Vec<u8>)
        ensures
            r@ == platform_name(*self),
    {
        let r = match self {
            SocialPlatform::X => vec![120u8],
            SocialPlatform::Discord => vec![100u8, 105, 115, 99, 111, 114, 100],
            SocialPlatform::Telegram => vec![116u8, 101, 108, 101, 103, 114, 97, 109],
            SocialPlatform::Email => vec![101u8, 109, 97, 105, 108],
            SocialPlatform::Tiktok => vec![116u8, 105, 107, 116, 111, 107],
            SocialPlatform::Sms => vec![115u8, 109, 115],
        };
        assert(r@ =~= platform_name(*self));
        r
    }
}

/// Every platform's canonical name parses back to that platform.
pub proof fn lemma_platform_name_round_trip(p: SocialPlatform)
    ensures
        platform_of_name(platform_name(p)) == Some(p),
{
    let x = platform_name(SocialPlatform::X);
    let d = platform_name(SocialPlatform::Discord);
    let t = platform_name(SocialPlatform::Telegram);
    let e = platform_name(SocialPlatform::Email);
    let k = platform_name(SocialPlatform::Tiktok);
    let s = platform_name(SocialPlatform::Sms);
    assert(x[0] != d[0] && x[0] != t[0] && x[0] != e[0] && x[0] != k[0] && x[0] != s[0]);
    assert(d.len() != t.len() && d.len() != e.len() && d.len() != k.len() && d.len() != s.len());
    assert(t.len() != e.len() && t.len() != k.len() && t.len() != s.len());
    assert(e.len() != k.len() && e.len() != s.len());
    assert(k.len() != s.len());
}

} // verus!
