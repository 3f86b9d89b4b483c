//! User activity.

use vstd::prelude::*;
use crate::json::{Json, JsonValue, entries_view, object, opt_str_entry, push_opt_str, vec_str_entry, push_vec_str};
use crate::text::{opt_view, opt_ref_view, opt_as_str, strings_view};

verus! {

/// The GraphQL text of this query.
pub const USER_ACTIVITY_QUERY: &'static str = r#"query UserActivity (
          $bundleHash:String,
          $metaType: String,
          $metaId: String,
          $ipAddress: String,
          $browser: String,
          $osCpu: String,
          $resolution: String,
          $timeZone: String,
          $countBy: [CountByUserActivity],
          $interval: span
        ) {
          UserActivity (
            bundleHash: $bundleHash,
            metaType: $metaType,
            metaId: $metaId,
            ipAddress: $ipAddress,
            browser: $browser,
            osCpu: $osCpu,
            resolution: $resolution,
            timeZone: $timeZone,
            countBy: $countBy,
            interval: $interval
          ) {
            createdAt,
            bundleHash,
            metaType,
            metaId,
            instances {
              bundleHash,
              metaType,
              metaId,
              jsonData,
              createdAt,
              updatedAt
            },
            instanceCount {
              ...SubFields,
              ...Recursive
            }
          }
        }

        fragment SubFields on InstanceCountType {
          id,
          count
        }

        fragment Recursive on InstanceCountType {
          instances {
            ...SubFields
            instances {
              ...SubFields,
              instances {
                ...SubFields
                instances {
                  ...SubFields
                  instances {
                    ...SubFields
                    instances {
                      ...SubFields
                      instances {
                        ...SubFields
                        instances {
                          ...SubFields
                        }
                      }
                    }
                  }
                }
              }
            }
          }
        }"#;


/// Query for information about user activity.
#[derive(Debug)]
pub struct QueryUserActivity {
    /// Bundle hash to filter by
    pub bundle_hash: Option<String>,
    /// Meta type to filter by
    pub meta_type: Option<String>,
    /// Meta ID to filter by
    pub meta_id: Option<String>,
    /// IP address to filter by
    pub ip_address: Option<String>,
    /// Browser to filter by
    pub browser: Option<String>,
    /// OS and CPU to filter by
    pub os_cpu: Option<String>,
    /// Screen resolution to filter by
    pub resolution: Option<String>,
    /// Time zone to filter by
    pub time_zone: Option<String>,
    /// Parameters to count by
    pub count_by: Vec<String>,
    /// Interval span
    pub interval: Option<String>,
}

/// The variables this query sends when none are provided: one entry per
/// parameter that is set, in this order.
pub open spec fn user_activity_variables(q: QueryUserActivity) -> Seq<(Seq<char>, Json)> {
    opt_str_entry("bundleHash"@, q.bundle_hash)
        + opt_str_entry("metaType"@, q.meta_type)
        + opt_str_entry("metaId"@, q.meta_id)
        + opt_str_entry("ipAddress"@, q.ip_address)
        + opt_str_entry("browser"@, q.browser)
        + opt_str_entry("osCpu"@, q.os_cpu)
        + opt_str_entry("resolution"@, q.resolution)
        + opt_str_entry("timeZone"@, q.time_zone)
        + vec_str_entry("countBy"@, q.count_by@)
        + opt_str_entry("interval"@, q.interval)
}

impl QueryUserActivity {
    /// A query with no parameter set.
    pub fn new() -> (q: Self)
        ensures
            q.bundle_hash is None,
            q.meta_type is None,
            q.meta_id is None,
            q.ip_address is None,
            q.browser is None,
            q.os_cpu is None,
            q.resolution is None,
            q.time_zone is None,
            q.count_by@.len() == 0,
            q.interval is None,
    {
        QueryUserActivity { bundle_hash: None, meta_type: None, meta_id: None, ip_address: None, browser: None, os_cpu: None, resolution: None, time_zone: None, count_by: Vec::new(), interval: None }
    }

    /// Set the bundle hash parameter.
    pub fn with_bundle_hash(self, bundle_hash: &str) -> (q: Self)
        ensures
            opt_view(q.bundle_hash) == Some(bundle_hash@),
            q.meta_type == self.meta_type,
            q.meta_id == self.meta_id,
            q.ip_address == self.ip_address,
            q.browser == self.browser,
            q.os_cpu == self.os_cpu,
            q.resolution == self.resolution,
            q.time_zone == self.time_zone,
            q.count_by == self.count_by,
            q.interval == self.interval,
    {
        QueryUserActivity { bundle_hash: Some(bundle_hash.to_owned()), meta_type: self.meta_type, meta_id: self.meta_id, ip_address: self.ip_address, browser: self.browser, os_cpu: self.os_cpu, resolution: self.resolution, time_zone: self.time_zone, count_by: self.count_by, interval: self.interval }
    }

    /// Set the meta type parameter.
    pub fn with_meta_type(self, meta_type: &str) -> (q: Self)
        ensures
            q.bundle_hash == self.bundle_hash,
            opt_view(q.meta_type) == Some(meta_type@),
            q.meta_id == self.meta_id,
            q.ip_address == self.ip_address,
            q.browser == self.browser,
            q.os_cpu == self.os_cpu,
            q.resolution == self.resolution,
            q.time_zone == self.time_zone,
            q.count_by == self.count_by,
            q.interval == self.interval,
    {
        QueryUserActivity { bundle_hash: self.bundle_hash, meta_type: Some(meta_type.to_owned()), meta_id: self.meta_id, ip_address: self.ip_address, browser: self.browser, os_cpu: self.os_cpu, resolution: self.resolution, time_zone: self.time_zone, count_by: self.count_by, interval: self.interval }
    }

    /// Set the meta ID parameter.
    pub fn with_meta_id(self, meta_id: &str) -> (q: Self)
        ensures
            q.bundle_hash == self.bundle_hash,
            q.meta_type == self.meta_type,
            opt_view(q.meta_id) == Some(meta_id@),
            q.ip_address == self.ip_address,
            q.browser == self.browser,
            q.os_cpu == self.os_cpu,
            q.resolution == self.resolution,
            q.time_zone == self.time_zone,
            q.count_by == self.count_by,
            q.interval == self.interval,
    {
        QueryUserActivity { bundle_hash: self.bundle_hash, meta_type: self.meta_type, meta_id: Some(meta_id.to_owned()), ip_address: self.ip_address, browser: self.browser, os_cpu: self.os_cpu, resolution: self.resolution, time_zone: self.time_zone, count_by: self.count_by, interval: self.interval }
    }

    /// Set the IP address parameter.
    pub fn with_ip_address(self, ip_address: &str) -> (q: Self)
        ensures
            q.bundle_hash == self.bundle_hash,
            q.meta_type == self.meta_type,
            q.meta_id == self.meta_id,
            opt_view(q.ip_address) == Some(ip_address@),
            q.browser == self.browser,
            q.os_cpu == self.os_cpu,
            q.resolution == self.resolution,
            q.time_zone == self.time_zone,
            q.count_by == self.count_by,
            q.interval == self.interval,
    {
        QueryUserActivity { bundle_hash: self.bundle_hash, meta_type: self.meta_type, meta_id: self.meta_id, ip_address: Some(ip_address.to_owned()), browser: self.browser, os_cpu: self.os_cpu, resolution: self.resolution, time_zone: self.time_zone, count_by: self.count_by, interval: self.interval }
    }

    /// Set the browser parameter.
    pub fn with_browser(self, browser: &str) -> (q: Self)
        ensures
            q.bundle_hash == self.bundle_hash,
            q.meta_type == self.meta_type,
            q.meta_id == self.meta_id,
            q.ip_address == self.ip_address,
            opt_view(q.browser) == Some(browser@),
            q.os_cpu == self.os_cpu,
            q.resolution == self.resolution,
            q.time_zone == self.time_zone,
            q.count_by == self.count_by,
            q.interval == self.interval,
    {
        QueryUserActivity { bundle_hash: self.bundle_hash, meta_type: self.meta_type, meta_id: self.meta_id, ip_address: self.ip_address, browser: Some(browser.to_owned()), os_cpu: self.os_cpu, resolution: self.resolution, time_zone: self.time_zone, count_by: self.count_by, interval: self.interval }
    }

    /// Set the OS/CPU parameter.
    pub fn with_os_cpu(self, os_cpu: &str) -> (q: Self)
        ensures
            q.bundle_hash == self.bundle_hash,
            q.meta_type == self.meta_type,
            q.meta_id == self.meta_id,
            q.ip_address == self.ip_address,
            q.browser == self.browser,
            opt_view(q.os_cpu) == Some(os_cpu@),
            q.resolution == self.resolution,
            q.time_zone == self.time_zone,
            q.count_by == self.count_by,
            q.interval == self.interval,
    {
        QueryUserActivity { bundle_hash: self.bundle_hash, meta_type: self.meta_type, meta_id: self.meta_id, ip_address: self.ip_address, browser: self.browser, os_cpu: Some(os_cpu.to_owned()), resolution: self.resolution, time_zone: self.time_zone, count_by: self.count_by, interval: self.interval }
    }

    /// Set the resolution parameter.
    pub fn with_resolution(self, resolution: &str) -> (q: Self)
        ensures
            q.bundle_hash == self.bundle_hash,
            q.meta_type == self.meta_type,
            q.meta_id == self.meta_id,
            q.ip_address == self.ip_address,
            q.browser == self.browser,
            q.os_cpu == self.os_cpu,
            opt_view(q.resolution) == Some(resolution@),
            q.time_zone == self.time_zone,
            q.count_by == self.count_by,
            q.interval == self.interval,
    {
        QueryUserActivity { bundle_hash: self.bundle_hash, meta_type: self.meta_type, meta_id: self.meta_id, ip_address: self.ip_address, browser: self.browser, os_cpu: self.os_cpu, resolution: Some(resolution.to_owned()), time_zone: self.time_zone, count_by: self.count_by, interval: self.interval }
    }

    /// Set the time zone parameter.
    pub fn with_time_zone(self, time_zone: &str) -> (q: Self)
        ensures
            q.bundle_hash == self.bundle_hash,
            q.meta_type == self.meta_type,
            q.meta_id == self.meta_id,
            q.ip_address == self.ip_address,
            q.browser == self.browser,
            q.os_cpu == self.os_cpu,
            q.resolution == self.resolution,
            opt_view(q.time_zone) == Some(time_zone@),
            q.count_by == self.count_by,
            q.interval == self.interval,
    {
        QueryUserActivity { bundle_hash: self.bundle_hash, meta_type: self.meta_type, meta_id: self.meta_id, ip_address: self.ip_address, browser: self.browser, os_cpu: self.os_cpu, resolution: self.resolution, time_zone: Some(time_zone.to_owned()), count_by: self.count_by, interval: self.interval }
    }

    /// Set the parameters to count by, replacing those held.
    pub fn with_count_by(self, count_by: Vec<String>) -> (q: Self)
        ensures
            q.bundle_hash == self.bundle_hash,
            q.meta_type == self.meta_type,
            q.meta_id == self.meta_id,
            q.ip_address == self.ip_address,
            q.browser == self.browser,
            q.os_cpu == self.os_cpu,
            q.resolution == self.resolution,
            q.time_zone == self.time_zone,
            q.count_by == count_by,
            q.interval == self.interval,
    {
        QueryUserActivity { bundle_hash: self.bundle_hash, meta_type: self.meta_type, meta_id: self.meta_id, ip_address: self.ip_address, browser: self.browser, os_cpu: self.os_cpu, resolution: self.resolution, time_zone: self.time_zone, count_by: count_by, interval: self.interval }
    }

    /// Set the interval parameter.
    pub fn with_interval(self, interval: &str) -> (q: Self)
        ensures
            q.bundle_hash == self.bundle_hash,
            q.meta_type == self.meta_type,
            q.meta_id == self.meta_id,
            q.ip_address == self.ip_address,
            q.browser == self.browser,
            q.os_cpu == self.os_cpu,
            q.resolution == self.resolution,
            q.time_zone == self.time_zone,
            q.count_by == self.count_by,
            opt_view(q.interval) == Some(interval@),
    {
        QueryUserActivity { bundle_hash: self.bundle_hash, meta_type: self.meta_type, meta_id: self.meta_id, ip_address: self.ip_address, browser: self.browser, os_cpu: self.os_cpu, resolution: self.resolution, time_zone: self.time_zone, count_by: self.count_by, interval: Some(interval.to_owned()) }
    }

    /// Append one parameter to count by.
    pub fn add_count_by(self, count_by: &str) -> (q: Self)
        ensures
            strings_view(q.count_by@) == strings_view(self.count_by@).push(count_by@),
            q.bundle_hash == self.bundle_hash,
            q.meta_type == self.meta_type,
            q.meta_id == self.meta_id,
            q.ip_address == self.ip_address,
            q.browser == self.browser,
            q.os_cpu == self.os_cpu,
            q.resolution == self.resolution,
            q.time_zone == self.time_zone,
            q.interval == self.interval,
    {
        let mut q = self;
        q.count_by.push(count_by.to_owned());
        assert(strings_view(q.count_by@) =~= strings_view(self.count_by@).push(count_by@));
        q
    }

    /// The bundle hash parameter.
    pub fn bundle_hash(&self) -> (r: Option<&str>)
        ensures
            opt_ref_view(r) == opt_view(self.bundle_hash),
    {
        opt_as_str(&self.bundle_hash)
    }

    /// The meta type parameter.
    pub fn meta_type(&self) -> (r: Option<&str>)
        ensures
            opt_ref_view(r) == opt_view(self.meta_type),
    {
        opt_as_str(&self.meta_type)
    }

    /// The meta id parameter.
    pub fn meta_id(&self) -> (r: Option<&str>)
        ensures
            opt_ref_view(r) == opt_view(self.meta_id),
    {
        opt_as_str(&self.meta_id)
    }

    /// The query text.
    pub fn get_query(&self) -> (s: &'static str)
        ensures
            s@ == USER_ACTIVITY_QUERY@,
    {
        USER_ACTIVITY_QUERY
    }

    /// The variables to send: those provided, else one entry per parameter set.
    pub fn compiled_variables(&self, variables: Option<JsonValue>) -> (res: Option<JsonValue>)
        ensures
            variables is Some ==> res == variables,
            variables is None ==> (res matches Some(v) && v@ == Json::Object(user_activity_variables(*self))),
    {
        match variables {
            Some(v) => Some(v),
            None => {
                let mut entries: Vec<(String, JsonValue)> = Vec::new();
                assert(entries_view(entries@) == Seq::<(Seq<char>, Json)>::empty());
                push_opt_str(&mut entries, "bundleHash", &self.bundle_hash);
                push_opt_str(&mut entries, "metaType", &self.meta_type);
                push_opt_str(&mut entries, "metaId", &self.meta_id);
                push_opt_str(&mut entries, "ipAddress", &self.ip_address);
                push_opt_str(&mut entries, "browser", &self.browser);
                push_opt_str(&mut entries, "osCpu", &self.os_cpu);
                push_opt_str(&mut entries, "resolution", &self.resolution);
                push_opt_str(&mut entries, "timeZone", &self.time_zone);
                push_vec_str(&mut entries, "countBy", &self.count_by);
                push_opt_str(&mut entries, "interval", &self.interval);
                assert(user_activity_variables(*self) =~= Seq::<(Seq<char>, Json)>::empty() + opt_str_entry("bundleHash"@, self.bundle_hash) + opt_str_entry("metaType"@, self.meta_type) + opt_str_entry("metaId"@, self.meta_id) + opt_str_entry("ipAddress"@, self.ip_address) + opt_str_entry("browser"@, self.browser) + opt_str_entry("osCpu"@, self.os_cpu) + opt_str_entry("resolution"@, self.resolution) + opt_str_entry("timeZone"@, self.time_zone) + vec_str_entry("countBy"@, self.count_by@) + opt_str_entry("interval"@, self.interval));
                Some(object(entries))
            },
        }
    }

    /// Activity of a bundle.
    pub fn by_bundle_hash(bundle_hash: &str) -> (q: Self)
        ensures
            opt_view(q.bundle_hash) == Some(bundle_hash@),
            q.meta_type is None,
            q.meta_id is None,
            q.ip_address is None,
            q.browser is None,
            q.os_cpu is None,
            q.resolution is None,
            q.time_zone is None,
            q.count_by@.len() == 0,
            q.interval is None,
    {
        Self::new().with_bundle_hash(bundle_hash)
    }

    /// Activity of a meta type.
    pub fn by_meta_type(meta_type: &str) -> (q: Self)
        ensures
            q.bundle_hash is None,
            opt_view(q.meta_type) == Some(meta_type@),
            q.meta_id is None,
            q.ip_address is None,
            q.browser is None,
            q.os_cpu is None,
            q.resolution is None,
            q.time_zone is None,
            q.count_by@.len() == 0,
            q.interval is None,
    {
        Self::new().with_meta_type(meta_type)
    }

    /// Activity of a meta type and ID.
    pub fn by_meta(meta_type: &str, meta_id: &str) -> (q: Self)
        ensures
            q.bundle_hash is None,
            opt_view(q.meta_type) == Some(meta_type@),
            opt_view(q.meta_id) == Some(meta_id@),
            q.ip_address is None,
            q.browser is None,
            q.os_cpu is None,
            q.resolution is None,
            q.time_zone is None,
            q.count_by@.len() == 0,
            q.interval is None,
    {
        Self::new().with_meta_type(meta_type).with_meta_id(meta_id)
    }

    /// Activity from an IP address.
    pub fn by_ip_address(ip_address: &str) -> (q: Self)
        ensures
            q.bundle_hash is None,
            q.meta_type is None,
            q.meta_id is None,
            opt_view(q.ip_address) == Some(ip_address@),
            q.browser is None,
            q.os_cpu is None,
            q.resolution is None,
            q.time_zone is None,
            q.count_by@.len() == 0,
            q.interval is None,
    {
        Self::new().with_ip_address(ip_address)
    }

    /// Activity from a browser.
    pub fn by_browser(browser: &str) -> (q: Self)
        ensures
            q.bundle_hash is None,
            q.meta_type is None,
            q.meta_id is None,
            q.ip_address is None,
            opt_view(q.browser) == Some(browser@),
            q.os_cpu is None,
            q.resolution is None,
            q.time_zone is None,
            q.count_by@.len() == 0,
            q.interval is None,
    {
        Self::new().with_browser(browser)
    }

    /// Activity counted by the given parameters over an interval.
    pub fn with_counting(count_by: Vec<String>, interval: &str) -> (q: Self)
        ensures
            q.bundle_hash is None,
            q.meta_type is None,
            q.meta_id is None,
            q.ip_address is None,
            q.browser is None,
            q.os_cpu is None,
            q.resolution is None,
            q.time_zone is None,
            q.count_by == count_by,
            opt_view(q.interval) == Some(interval@),
    {
        Self::new().with_count_by(count_by).with_interval(interval)
    }

    /// All activity (no filter).
    pub fn all() -> (q: Self)
        ensures
            q.bundle_hash is None,
            q.meta_type is None,
            q.meta_id is None,
            q.ip_address is None,
            q.browser is None,
            q.os_cpu is None,
            q.resolution is None,
            q.time_zone is None,
            q.count_by@.len() == 0,
            q.interval is None,
    {
        Self::new()
    }


}

} // verus!
