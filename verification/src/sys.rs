//! Numbers of the x86-64 Linux interface that the decisions of this crate name.

use vstd::prelude::*;

verus! {

pub const SYS_READ: i64 = 0;

pub const SYS_WRITE: i64 = 1;

pub const SYS_CLOSE: i64 = 3;

pub const SYS_FSTAT: i64 = 5;

pub const SYS_LSEEK: i64 = 8;

pub const SYS_MMAP: i64 = 9;

pub const SYS_MUNMAP: i64 = 11;

pub const SYS_RT_SIGACTION: i64 = 13;

pub const SYS_RT_SIGPROCMASK: i64 = 14;

pub const SYS_IOCTL: i64 = 16;

pub const SYS_PREAD64: i64 = 17;

pub const SYS_PWRITE64: i64 = 18;

pub const SYS_READV: i64 = 19;

pub const SYS_WRITEV: i64 = 20;

pub const SYS_ACCESS: i64 = 21;

pub const SYS_MREMAP: i64 = 25;

pub const SYS_DUP: i64 = 32;

pub const SYS_DUP2: i64 = 33;

pub const SYS_GETPID: i64 = 39;

pub const SYS_SENDFILE: i64 = 40;

pub const SYS_SOCKET: i64 = 41;

pub const SYS_SENDTO: i64 = 44;

pub const SYS_RECVFROM: i64 = 45;

pub const SYS_SENDMSG: i64 = 46;

pub const SYS_RECVMSG: i64 = 47;

pub const SYS_SHUTDOWN: i64 = 48;

pub const SYS_BIND: i64 = 49;

pub const SYS_GETSOCKNAME: i64 = 51;

pub const SYS_SETSOCKOPT: i64 = 54;

pub const SYS_GETSOCKOPT: i64 = 55;

pub const SYS_CLONE: i64 = 56;

pub const SYS_FORK: i64 = 57;

pub const SYS_VFORK: i64 = 58;

pub const SYS_EXECVE: i64 = 59;

pub const SYS_EXIT: i64 = 60;

pub const SYS_WAIT4: i64 = 61;

pub const SYS_FCNTL: i64 = 72;

pub const SYS_FSYNC: i64 = 74;

pub const SYS_FTRUNCATE: i64 = 77;

pub const SYS_GETCWD: i64 = 79;

pub const SYS_RENAME: i64 = 82;

pub const SYS_MKDIR: i64 = 83;

pub const SYS_RMDIR: i64 = 84;

pub const SYS_UNLINK: i64 = 87;

pub const SYS_SYMLINK: i64 = 88;

pub const SYS_GETTIMEOFDAY: i64 = 96;

pub const SYS_SETPGID: i64 = 109;

pub const SYS_GETPPID: i64 = 110;

pub const SYS_SETSID: i64 = 112;

pub const SYS_RT_SIGSUSPEND: i64 = 130;

pub const SYS_SIGALTSTACK: i64 = 131;

pub const SYS_STATFS: i64 = 137;

pub const SYS_GETTID: i64 = 186;

pub const SYS_TIME: i64 = 201;

pub const SYS_IO_SUBMIT: i64 = 209;

pub const SYS_GETDENTS64: i64 = 217;

pub const SYS_SET_TID_ADDRESS: i64 = 218;

pub const SYS_CLOCK_GETTIME: i64 = 228;

pub const SYS_CLOCK_GETRES: i64 = 229;

pub const SYS_EXIT_GROUP: i64 = 231;

pub const SYS_INOTIFY_ADD_WATCH: i64 = 254;

pub const SYS_OPENAT: i64 = 257;

pub const SYS_NEWFSTATAT: i64 = 262;

pub const SYS_UNLINKAT: i64 = 263;

pub const SYS_RENAMEAT: i64 = 264;

pub const SYS_LINKAT: i64 = 265;

pub const SYS_PSELECT6: i64 = 270;

pub const SYS_PPOLL: i64 = 271;

pub const SYS_UNSHARE: i64 = 272;

pub const SYS_SET_ROBUST_LIST: i64 = 273;

pub const SYS_SPLICE: i64 = 275;

pub const SYS_TEE: i64 = 276;

pub const SYS_VMSPLICE: i64 = 278;

pub const SYS_EPOLL_PWAIT: i64 = 281;

pub const SYS_FALLOCATE: i64 = 285;

pub const SYS_DUP3: i64 = 292;

pub const SYS_PIPE2: i64 = 293;

pub const SYS_INOTIFY_INIT1: i64 = 294;

pub const SYS_PREADV: i64 = 295;

pub const SYS_PWRITEV: i64 = 296;

pub const SYS_RECVMMSG: i64 = 299;

pub const SYS_SENDMMSG: i64 = 307;

pub const SYS_SETNS: i64 = 308;

pub const SYS_GETCPU: i64 = 309;

pub const SYS_EXECVEAT: i64 = 322;

pub const SYS_COPY_FILE_RANGE: i64 = 326;

pub const SYS_PREADV2: i64 = 327;

pub const SYS_PWRITEV2: i64 = 328;

pub const SYS_IO_URING_REGISTER: i64 = 427;

pub const SYS_CLONE3: i64 = 435;

pub const SYS_CLOSE_RANGE: i64 = 436;

pub const SYS_EPOLL_PWAIT2: i64 = 441;

pub const SYS_IO_PGETEVENTS: i64 = 333;

pub const EPERM: i32 = 1;

pub const EINTR: i32 = 4;

pub const EIO: i32 = 5;

pub const EBADF: i32 = 9;

pub const EAGAIN: i32 = 11;

pub const EFAULT: i32 = 14;

pub const EBUSY: i32 = 16;

pub const EXDEV: i32 = 18;

pub const EINVAL: i32 = 22;

pub const ENOSYS: i32 = 38;

pub const EOVERFLOW: i32 = 75;

pub const EOPNOTSUPP: i32 = 95;

pub const ECANCELED: i32 = 125;

pub const SIGKILL: i32 = 9;

pub const SIGSEGV: i32 = 11;

pub const SIGCHLD: i32 = 17;

pub const SIGSTOP: i32 = 19;

pub const SIGSYS: i32 = 31;

} // verus!
