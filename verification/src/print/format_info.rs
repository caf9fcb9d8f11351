//! Widths of the numeric fields of the long format, so that every column
//! of one directory can be right-aligned.

use vstd::prelude::*;

verus! {

/// The widest value seen so far in each numeric field of one directory.
#[derive(Debug)]
pub struct FormatInfo {
    pub hard_link_length: usize,
    pub user_length: usize,
    pub group_length: usize,
    pub major_length: usize,
    pub minor_length: usize,
    pub file_size_length: usize,
}

/// The larger of two widths.
pub open spec fn wider(a: usize, b: usize) -> usize {
    if a < b {
        b
    } else {
        a
    }
}

/// Characters between the major and the minor number of a device.
pub const DEVICE_SEPARATOR_LENGTH: usize = 2;

/// Width of a device's size field: both numbers and the separator between
/// them, as far as a `usize` can hold it.
pub open spec fn device_field_length(major_length: usize, minor_length: usize) -> usize {
    if major_length + minor_length + DEVICE_SEPARATOR_LENGTH <= usize::MAX {
        (major_length + minor_length + DEVICE_SEPARATOR_LENGTH) as usize
    } else {
        usize::MAX
    }
}

impl FormatInfo {
    /// No field has been seen yet.
    pub open spec fn is_reset(&self) -> bool {
        &&& self.hard_link_length == 0
        &&& self.user_length == 0
        &&& self.group_length == 0
        &&& self.major_length == 0
        &&& self.minor_length == 0
        &&& self.file_size_length == 0
    }

    pub fn new() -> (info: Self)
        ensures
            info.is_reset(),
    {
        Self {
            hard_link_length: 0,
            user_length: 0,
            group_length: 0,
            major_length: 0,
            minor_length: 0,
            file_size_length: 0,
        }
    }

    pub fn update_hard_link_length(&mut self, hard_link_length: usize)
        ensures
            *final(self) == (FormatInfo {
                hard_link_length: wider(old(self).hard_link_length, hard_link_length),
                ..*old(self)
            }),
    {
        if self.hard_link_length < hard_link_length {
            self.hard_link_length = hard_link_length;
        }
    }

    pub fn update_user_length(&mut self, user_length: usize)
        ensures
            *final(self) == (FormatInfo {
                user_length: wider(old(self).user_length, user_length),
                ..*old(self)
            }),
    {
        if self.user_length < user_length {
            self.user_length = user_length;
        }
    }

    pub fn update_group_length(&mut self, group_length: usize)
        ensures
            *final(self) == (FormatInfo {
                group_length: wider(old(self).group_length, group_length),
                ..*old(self)
            }),
    {
        if self.group_length < group_length {
            self.group_length = group_length;
        }
    }

    fn update_major_length(&mut self, major_length: usize)
        ensures
            *final(self) == (FormatInfo {
                major_length: wider(old(self).major_length, major_length),
                ..*old(self)
            }),
    {
        if self.major_length < major_length {
            self.major_length = major_length;
        }
    }

    fn update_minor_length(&mut self, minor_length: usize)
        ensures
            *final(self) == (FormatInfo {
                minor_length: wider(old(self).minor_length, minor_length),
                ..*old(self)
            }),
    {
        if self.minor_length < minor_length {
            self.minor_length = minor_length;
        }
    }

    pub fn update_file_size_length(&mut self, file_size_length: usize)
        ensures
            *final(self) == (FormatInfo {
                file_size_length: wider(old(self).file_size_length, file_size_length),
                ..*old(self)
            }),
    {
        if self.file_size_length < file_size_length {
            self.file_size_length = file_size_length;
        }
    }

    /// Folds in a device: its major and minor numbers each widen their own
    /// field, and together with the separator they widen the size field.
    pub fn update_file_size_lengths(&mut self, major_length: usize, minor_length: usize)
        ensures
            *final(self) == (FormatInfo {
                major_length: wider(old(self).major_length, major_length),
                minor_length: wider(old(self).minor_length, minor_length),
                file_size_length: wider(
                    old(self).file_size_length,
                    device_field_length(major_length, minor_length),
                ),
                ..*old(self)
            }),
    {
        self.update_major_length(major_length);
        self.update_minor_length(minor_length);
        let both: usize = major_length.saturating_add(minor_length);
        self.update_file_size_length(both.saturating_add(DEVICE_SEPARATOR_LENGTH));
    }
}

} // verus!
