//! Counters of what the browser did, each saturating at `u64::MAX`.
use vstd::prelude::*;

verus! {

/// Counters of browser activity.
#[derive(Clone, Copy, Debug, Default)]
pub struct BrowserMetrics {
    pub pages_opened: u64,
    pub videos_played: u64,
    pub hd_attempts: u64,
    pub hd_success: u64,
    pub playback_failures: u64,
    pub manifests_collected: u64,
    pub network_requests: u64,
    pub proxy_rotations: u64,
    pub bot_detections: u64,
}

/// `x + n`, held at `u64::MAX`.
pub open spec fn sat(x: u64, n: u64) -> u64 {
    if x + n > u64::MAX {
        u64::MAX
    } else {
        (x + n) as u64
    }
}

impl BrowserMetrics {
    /// All counters at zero.
    pub fn new() -> (r: Self)
        ensures
            r == (BrowserMetrics {
                pages_opened: 0,
                videos_played: 0,
                hd_attempts: 0,
                hd_success: 0,
                playback_failures: 0,
                manifests_collected: 0,
                network_requests: 0,
                proxy_rotations: 0,
                bot_detections: 0,
            }),
    {
        BrowserMetrics {
            pages_opened: 0,
            videos_played: 0,
            hd_attempts: 0,
            hd_success: 0,
            playback_failures: 0,
            manifests_collected: 0,
            network_requests: 0,
            proxy_rotations: 0,
            bot_detections: 0,
        }
    }

    pub fn record_page_open(&mut self)
        ensures
            *final(self) == (BrowserMetrics {
                pages_opened: sat(old(self).pages_opened, 1),
                ..*old(self)
            }),
    {
        self.pages_opened = self.pages_opened.saturating_add(1);
    }

    pub fn record_video_playback(&mut self)
        ensures
            *final(self) == (BrowserMetrics {
                videos_played: sat(old(self).videos_played, 1),
                ..*old(self)
            }),
    {
        self.videos_played = self.videos_played.saturating_add(1);
    }

    /// An HD attempt, counted as a success too when `success` holds.
    pub fn record_hd_attempt(&mut self, success: bool)
        ensures
            *final(self) == (BrowserMetrics {
                hd_attempts: sat(old(self).hd_attempts, 1),
                hd_success: if success {
                    sat(old(self).hd_success, 1)
                } else {
                    old(self).hd_success
                },
                ..*old(self)
            }),
    {
        self.hd_attempts = self.hd_attempts.saturating_add(1);
        if success {
            self.hd_success = self.hd_success.saturating_add(1);
        }
    }

    pub fn record_playback_failure(&mut self)
        ensures
            *final(self) == (BrowserMetrics {
                playback_failures: sat(old(self).playback_failures, 1),
                ..*old(self)
            }),
    {
        self.playback_failures = self.playback_failures.saturating_add(1);
    }

    pub fn record_manifest(&mut self)
        ensures
            *final(self) == (BrowserMetrics {
                manifests_collected: sat(old(self).manifests_collected, 1),
                ..*old(self)
            }),
    {
        self.manifests_collected = self.manifests_collected.saturating_add(1);
    }

    pub fn record_network_events(&mut self, count: u64)
        ensures
            *final(self) == (BrowserMetrics {
                network_requests: sat(old(self).network_requests, count),
                ..*old(self)
            }),
    {
        self.network_requests = self.network_requests.saturating_add(count);
    }

    pub fn record_proxy_rotation(&mut self)
        ensures
            *final(self) == (BrowserMetrics {
                proxy_rotations: sat(old(self).proxy_rotations, 1),
                ..*old(self)
            }),
    {
        self.proxy_rotations = self.proxy_rotations.saturating_add(1);
    }

    pub fn record_bot_detection(&mut self)
        ensures
            *final(self) == (BrowserMetrics {
                bot_detections: sat(old(self).bot_detections, 1),
                ..*old(self)
            }),
    {
        self.bot_detections = self.bot_detections.saturating_add(1);
    }

    /// HD attempts that did not succeed (never below zero).
    pub fn hd_failures(&self) -> (r: u64)
        ensures
            r == if self.hd_attempts >= self.hd_success {
                (self.hd_attempts - self.hd_success) as u64
            } else {
                0u64
            },
    {
        self.hd_attempts.saturating_sub(self.hd_success)
    }
}

/// Counters never go down: any record leaves each counter at least where it was.
pub proof fn law_counters_monotone(x: u64, n: u64)
    ensures
        sat(x, n) >= x,
        n > 0 && x < u64::MAX ==> sat(x, n) > x,
{
}

} // verus!
