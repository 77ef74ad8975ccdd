//! Endpoint addresses and fixed protocol values.

use vstd::prelude::*;

verus! {

/// Text translation endpoint.
pub const COMMON_URL: &'static str = "https://fanyi-api.baidu.com/api/trans/vip/translate";

/// Image translation endpoint.
pub const IMAGE_URL: &'static str = "https://fanyi-api.baidu.com/api/trans/sdk/picture";

/// Vertical-domain translation endpoint.
pub const DOMAIN_URL: &'static str = "https://fanyi-api.baidu.com/api/trans/vip/fieldtranslate";

/// Document character-count endpoint.
pub const DOC_COUNT_URL: &'static str = "https://fanyi-api.baidu.com/api/trans/vip/doccount";

/// Fixed `cuid` value the image endpoint expects.
pub const IMAGE_CUID: &'static str = "APICUID";

/// Fixed `mac` value the image endpoint expects.
pub const IMAGE_MAC: &'static str = "mac";

/// Fixed `version` value the image endpoint expects.
pub const IMAGE_VERSION: &'static str = "3";

} // verus!
